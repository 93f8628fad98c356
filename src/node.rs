//! Reconciliation of a map-matching outcome with the stored trajectory: the
//! node rows to write for one trajectory.
use vstd::prelude::*;
use crate::polyline::{decode_polyline, decoded};

verus! {

/// What the map-matching service answered for one trajectory.
pub enum MatchOutcome {
    /// A clean match: the shape of each route leg, in leg order, as an
    /// encoded polyline at precision 6.
    Matched { legs: Vec<String> },
    /// A match flagged as ambiguous, with the service's warning text.
    Warned { warning: String },
    /// The call failed, with the error message.
    Failed { message: String },
}

/// A node row: a matched point (in millionths of a degree) or an error marker.
#[derive(Clone, Debug)]
pub struct Node {
    pub traj_id: i64,
    pub position: Option<(i64, i64)>,
    pub match_error: Option<String>,
}

/// What a node row states, over plain values.
pub struct NodeView {
    pub traj_id: i64,
    pub position: Option<(i64, i64)>,
    pub match_error: Option<Seq<char>>,
}

impl View for Node {
    type V = NodeView;

    open spec fn view(&self) -> NodeView {
        NodeView {
            traj_id: self.traj_id,
            position: self.position,
            match_error: match self.match_error {
                Some(m) => Some(m@),
                None => None,
            },
        }
    }
}

/// The views of a list of node rows.
pub open spec fn node_views(rows: Seq<Node>) -> Seq<NodeView> {
    rows.map_values(|n: Node| n@)
}

/// The texts of a list of strings.
pub open spec fn texts(legs: Seq<String>) -> Seq<Seq<char>> {
    legs.map_values(|s: String| s@)
}

/// The points of a list of leg shapes, flattened in leg order.
pub open spec fn leg_points(legs: Seq<Seq<char>>) -> Seq<(i64, i64)>
    decreases legs.len(),
{
    if legs.len() == 0 {
        Seq::empty()
    } else {
        leg_points(legs.drop_last()) + decoded(legs.last())
    }
}

/// The node row of a matched point.
pub open spec fn point_node(traj_id: i64, p: (i64, i64)) -> NodeView {
    NodeView { traj_id, position: Some(p), match_error: None }
}

/// The single error-marker row of a failed or ambiguous match.
pub open spec fn error_node(traj_id: i64, text: Seq<char>) -> NodeView {
    NodeView { traj_id, position: None, match_error: Some(text) }
}

/// The rows to write for a trajectory given the service's answer: one row per
/// matched point, in leg order; or, after a warning or an error, exactly one
/// error-marker row holding its text.
pub open spec fn outcome_nodes(traj_id: i64, o: MatchOutcome) -> Seq<NodeView> {
    match o {
        MatchOutcome::Matched { legs } => leg_points(texts(legs@)).map_values(
            |p: (i64, i64)| point_node(traj_id, p),
        ),
        MatchOutcome::Warned { warning } => seq![error_node(traj_id, warning@)],
        MatchOutcome::Failed { message } => seq![error_node(traj_id, message@)],
    }
}

/// After a warning, exactly one row is written for the trajectory: it holds
/// the warning text and no position.
pub proof fn lemma_warning_writes_one_error_row(traj_id: i64, warning: String)
    ensures
        outcome_nodes(traj_id, MatchOutcome::Warned { warning }).len() == 1,
        outcome_nodes(traj_id, MatchOutcome::Warned { warning })[0] == error_node(traj_id, warning@),
        outcome_nodes(traj_id, MatchOutcome::Warned { warning })[0].position is None,
{
}

/// The rows of one trajectory are either matched points, none with an error,
/// or exactly one error marker without a position; never both. All carry the
/// trajectory's id. A warning, an error, or a match whose legs hold a point
/// gives at least one row; a match whose legs hold none gives no row.
pub proof fn lemma_nodes_never_mixed(traj_id: i64, o: MatchOutcome)
    ensures
        (!(o is Matched) || leg_points(texts(o->Matched_legs@)).len() > 0) ==> outcome_nodes(traj_id, o).len() >= 1,
        (o is Matched && leg_points(texts(o->Matched_legs@)).len() == 0) ==> outcome_nodes(traj_id, o).len() == 0,
        ({
            let rows = outcome_nodes(traj_id, o);
            ||| forall|i: int|
                0 <= i < rows.len() ==> (#[trigger] rows[i]).position is Some && rows[i].match_error is None
                    && rows[i].traj_id == traj_id
            ||| rows.len() == 1 && rows[0].position is None && rows[0].match_error is Some
                && rows[0].traj_id == traj_id
        }),
{
}

/// The node rows to write for trajectory `traj_id` after map matching.
pub fn nodes_for_outcome(traj_id: i64, outcome: &MatchOutcome) -> (rows: Vec<Node>)
    ensures
        node_views(rows@) == outcome_nodes(traj_id, *outcome),
{
    match outcome {
        MatchOutcome::Warned { warning } => {
            let rows = vec![Node { traj_id, position: None, match_error: Some(warning.clone()) }];
            assert(node_views(rows@) =~= outcome_nodes(traj_id, *outcome));
            rows
        },
        MatchOutcome::Failed { message } => {
            let rows = vec![Node { traj_id, position: None, match_error: Some(message.clone()) }];
            assert(node_views(rows@) =~= outcome_nodes(traj_id, *outcome));
            rows
        },
        MatchOutcome::Matched { legs } => {
            let mut rows: Vec<Node> = Vec::new();
            let mut i: usize = 0;
            while i < legs.len()
                invariant
                    i <= legs.len(),
                    node_views(rows@) == leg_points(texts(legs@.subrange(0, i as int))).map_values(
                        |p: (i64, i64)| point_node(traj_id, p),
                    ),
                decreases legs.len() - i,
            {
                let shape = decode_polyline(legs[i].as_str());
                let ghost before = rows@;
                let mut j: usize = 0;
                while j < shape.len()
                    invariant
                        j <= shape.len(),
                        node_views(rows@) == node_views(before) + shape@.subrange(0, j as int).map_values(
                            |p: (i64, i64)| point_node(traj_id, p),
                        ),
                    decreases shape.len() - j,
                {
                    let ghost mid = rows@;
                    rows.push(Node { traj_id, position: Some(shape[j]), match_error: None });
                    assert(node_views(rows@) =~= node_views(mid).push(point_node(traj_id, shape@[j as int])));
                    assert(shape@.subrange(0, j as int + 1).map_values(|p: (i64, i64)| point_node(traj_id, p))
                        =~= shape@.subrange(0, j as int).map_values(|p: (i64, i64)| point_node(traj_id, p)).push(
                        point_node(traj_id, shape@[j as int])));
                    j = j + 1;
                }
                assert(shape@.subrange(0, j as int) =~= shape@);
                let ghost done = legs@.subrange(0, i as int + 1);
                assert(texts(done).drop_last() =~= texts(legs@.subrange(0, i as int)));
                assert(texts(done).last() == legs@[i as int]@);
                assert(leg_points(texts(done)).map_values(|p: (i64, i64)| point_node(traj_id, p)) =~=
                    leg_points(texts(legs@.subrange(0, i as int))).map_values(|p: (i64, i64)| point_node(traj_id, p))
                    + shape@.map_values(|p: (i64, i64)| point_node(traj_id, p)));
                i = i + 1;
            }
            assert(legs@.subrange(0, i as int) =~= legs@);
            rows
        },
    }
}

} // verus!
