//! Static vehicle records decoded from the rows of the vehicle workbooks, with
//! the sentinel text "NO DATA" read as an absent value.
use vstd::prelude::*;
use crate::clock::opt_text;

verus! {

/// One workbook cell, as the values the decoder reads from it: the cell as an
/// integer, and the cell as text, where it has such a reading.
#[derive(Clone, Debug)]
pub struct Cell {
    pub integer: Option<i64>,
    pub text: Option<String>,
}

/// A vehicle's static attributes.
#[derive(Clone, Debug)]
pub struct Vehicle {
    pub vehicle_id: i64,
    pub vehicle_type: Option<String>,
    pub vehicle_class: Option<String>,
    pub engine: Option<String>,
    pub transmission: Option<String>,
    pub drive_wheels: Option<String>,
    pub weight: Option<i64>,
}

/// What a vehicle record states, over plain values.
pub struct VehicleView {
    pub vehicle_id: i64,
    pub vehicle_type: Option<Seq<char>>,
    pub vehicle_class: Option<Seq<char>>,
    pub engine: Option<Seq<char>>,
    pub transmission: Option<Seq<char>>,
    pub drive_wheels: Option<Seq<char>>,
    pub weight: Option<i64>,
}

impl View for Vehicle {
    type V = VehicleView;

    open spec fn view(&self) -> VehicleView {
        VehicleView {
            vehicle_id: self.vehicle_id,
            vehicle_type: opt_text(self.vehicle_type),
            vehicle_class: opt_text(self.vehicle_class),
            engine: opt_text(self.engine),
            transmission: opt_text(self.transmission),
            drive_wheels: opt_text(self.drive_wheels),
            weight: self.weight,
        }
    }
}

/// Why a workbook row could not be decoded; `row` counts from 0 at the
/// header row of its sheet.
#[derive(Clone, Copy, Debug, PartialEq, Eq, Structural)]
pub enum VehicleError {
    /// The row has fewer than the seven columns of a vehicle record.
    MissingColumns { row: usize },
    /// The first column does not read as an integer vehicle id.
    InvalidVehicleId { row: usize },
}

/// The sentinel text that marks an absent value.
pub open spec fn no_data() -> Seq<char> {
    seq!['N', 'O', ' ', 'D', 'A', 'T', 'A']
}

/// Whether a text starts with the sentinel.
pub open spec fn marks_no_data(t: Seq<char>) -> bool {
    t.len() >= no_data().len() && t.subrange(0, no_data().len() as int) == no_data()
}

/// An optional text with the sentinel read as absent.
pub open spec fn present_text(t: Option<Seq<char>>) -> Option<Seq<char>> {
    match t {
        Some(s) => if marks_no_data(s) {
            None
        } else {
            Some(s)
        },
        None => None,
    }
}

/// The weight of a cell: absent where its text starts with the sentinel,
/// otherwise its integer reading.
pub open spec fn present_integer(c: Cell) -> Option<i64> {
    match opt_text(c.text) {
        Some(s) => if marks_no_data(s) {
            None
        } else {
            c.integer
        },
        None => c.integer,
    }
}

/// The record of a vehicle row (after the header), or why it has none.
pub open spec fn row_vehicle(row: Seq<Cell>, index: usize) -> Result<VehicleView, VehicleError> {
    if row.len() < 7 {
        Err(VehicleError::MissingColumns { row: index })
    } else if row[0].integer is None {
        Err(VehicleError::InvalidVehicleId { row: index })
    } else {
        Ok(
            VehicleView {
                vehicle_id: row[0].integer->0,
                vehicle_type: present_text(opt_text(row[1].text)),
                vehicle_class: present_text(opt_text(row[2].text)),
                engine: present_text(opt_text(row[3].text)),
                transmission: present_text(opt_text(row[4].text)),
                drive_wheels: present_text(opt_text(row[5].text)),
                weight: present_integer(row[6]),
            },
        )
    }
}

/// The records of the first `n` rows of a sheet, the header row 0 left out;
/// the first row that cannot be decoded decides the error.
pub open spec fn sheet_vehicles(rows: Seq<Vec<Cell>>, n: int) -> Result<Seq<VehicleView>, VehicleError>
    decreases n,
{
    if n <= 1 {
        Ok(Seq::empty())
    } else {
        match sheet_vehicles(rows, n - 1) {
            Err(e) => Err(e),
            Ok(vs) => match row_vehicle(rows[n - 1]@, (n - 1) as usize) {
                Err(e) => Err(e),
                Ok(v) => Ok(vs.push(v)),
            },
        }
    }
}

proof fn lemma_sheet_error_persists(rows: Seq<Vec<Cell>>, n: int, m: int)
    requires
        n <= m,
        sheet_vehicles(rows, n) is Err,
    ensures
        sheet_vehicles(rows, m) == sheet_vehicles(rows, n),
    decreases m - n,
{
    if n < m {
        lemma_sheet_error_persists(rows, n, m - 1);
    }
}

/// The views of a list of vehicles.
pub open spec fn vehicle_views(vs: Seq<Vehicle>) -> Seq<VehicleView> {
    vs.map_values(|v: Vehicle| v@)
}

fn starts_with_no_data(t: &String) -> (r: bool)
    ensures
        r == marks_no_data(t@),
{
    let marker = "NO DATA";
    proof {
        reveal_strlit("NO DATA");
    }
    assert(marker@ == no_data());
    let n = t.as_str().unicode_len();
    if n < 7 {
        return false;
    }
    let mut i: usize = 0;
    while i < 7
        invariant
            i <= 7,
            n == t@.len(),
            n >= 7,
            marker@ == no_data(),
            forall|k: int| 0 <= k < i ==> t@[k] == no_data()[k],
        decreases 7 - i,
    {
        if t.as_str().get_char(i) != marker.get_char(i) {
            assert(t@.subrange(0, 7)[i as int] != no_data()[i as int]);
            return false;
        }
        i = i + 1;
    }
    assert(t@.subrange(0, 7) =~= no_data());
    true
}

/// An optional text with the sentinel "NO DATA" (as a prefix) read as absent.
pub fn no_data_str(data: &Option<String>) -> (r: Option<String>)
    ensures
        opt_text(r) == present_text(opt_text(*data)),
{
    match data {
        Some(text) => {
            if starts_with_no_data(text) {
                None
            } else {
                Some(text.clone())
            }
        },
        None => None,
    }
}

fn no_data_integer(cell: &Cell) -> (r: Option<i64>)
    ensures
        r == present_integer(*cell),
{
    match &cell.text {
        Some(text) => {
            if starts_with_no_data(text) {
                None
            } else {
                cell.integer
            }
        },
        None => cell.integer,
    }
}

/// Decodes one vehicle row of a sheet; `index` is its position in the sheet.
pub fn vehicle_from_row(row: &Vec<Cell>, index: usize) -> (r: Result<Vehicle, VehicleError>)
    ensures
        match r {
            Ok(v) => row_vehicle(row@, index) == Ok::<VehicleView, VehicleError>(v@),
            Err(e) => row_vehicle(row@, index) == Err::<VehicleView, VehicleError>(e),
        },
{
    if row.len() < 7 {
        return Err(VehicleError::MissingColumns { row: index });
    }
    let vehicle_id = match row[0].integer {
        Some(id) => id,
        None => {
            return Err(VehicleError::InvalidVehicleId { row: index });
        },
    };
    let v = Vehicle {
        vehicle_id,
        vehicle_type: no_data_str(&row[1].text),
        vehicle_class: no_data_str(&row[2].text),
        engine: no_data_str(&row[3].text),
        transmission: no_data_str(&row[4].text),
        drive_wheels: no_data_str(&row[5].text),
        weight: no_data_integer(&row[6]),
    };
    Ok(v)
}

/// Decodes the vehicle rows of one sheet, skipping its header row.
pub fn read_sheet_vehicles(rows: &Vec<Vec<Cell>>) -> (r: Result<Vec<Vehicle>, VehicleError>)
    ensures
        match r {
            Ok(vs) => sheet_vehicles(rows@, rows.len() as int) == Ok::<Seq<VehicleView>, VehicleError>(vehicle_views(vs@)),
            Err(e) => sheet_vehicles(rows@, rows.len() as int) == Err::<Seq<VehicleView>, VehicleError>(e),
        },
{
    let mut vehicles: Vec<Vehicle> = Vec::new();
    assert(vehicle_views(vehicles@) =~= Seq::empty());
    let mut i: usize = 1;
    if rows.len() == 0 {
        return Ok(vehicles);
    }
    while i < rows.len()
        invariant
            1 <= i <= rows.len(),
            sheet_vehicles(rows@, i as int) == Ok::<Seq<VehicleView>, VehicleError>(vehicle_views(vehicles@)),
        decreases rows.len() - i,
    {
        match vehicle_from_row(&rows[i], i) {
            Ok(v) => {
                let ghost before = vehicles@;
                vehicles.push(v);
                assert(vehicle_views(vehicles@) =~= vehicle_views(before).push(v@));
            },
            Err(e) => {
                proof {
                    lemma_sheet_error_persists(rows@, i + 1, rows.len() as int);
                }
                return Err(e);
            },
        }
        i = i + 1;
    }
    Ok(vehicles)
}

/// The vehicles of both workbooks: those of the combustion and hybrid sheet,
/// then those of the plug-in and electric sheet.
pub open spec fn all_vehicles(ice: Seq<Vec<Cell>>, xev: Seq<Vec<Cell>>) -> Result<Seq<VehicleView>, VehicleError> {
    match sheet_vehicles(ice, ice.len() as int) {
        Err(e) => Err(e),
        Ok(a) => match sheet_vehicles(xev, xev.len() as int) {
            Err(e) => Err(e),
            Ok(b) => Ok(a + b),
        },
    }
}

/// Decodes the vehicles of the two static-data sheets, in order.
pub fn read_vehicles(ice_rows: &Vec<Vec<Cell>>, xev_rows: &Vec<Vec<Cell>>) -> (r: Result<Vec<Vehicle>, VehicleError>)
    ensures
        match r {
            Ok(vs) => all_vehicles(ice_rows@, xev_rows@) == Ok::<Seq<VehicleView>, VehicleError>(vehicle_views(vs@)),
            Err(e) => all_vehicles(ice_rows@, xev_rows@) == Err::<Seq<VehicleView>, VehicleError>(e),
        },
{
    let mut vehicles = read_sheet_vehicles(ice_rows)?;
    let mut more = read_sheet_vehicles(xev_rows)?;
    let ghost a = vehicles@;
    let ghost b = more@;
    vehicles.append(&mut more);
    assert(vehicle_views(vehicles@) =~= vehicle_views(a) + vehicle_views(b));
    Ok(vehicles)
}

impl Vehicle {
    /// The record's fields in column order.
    pub fn to_tuple(&self) -> (r: (i64, Option<String>, Option<String>, Option<String>, Option<String>, Option<String>, Option<i64>))
        ensures
            r.0 == self.vehicle_id,
            opt_text(r.1) == self@.vehicle_type,
            opt_text(r.2) == self@.vehicle_class,
            opt_text(r.3) == self@.engine,
            opt_text(r.4) == self@.transmission,
            opt_text(r.5) == self@.drive_wheels,
            r.6 == self.weight,
    {
        (
            self.vehicle_id,
            clone_text(&self.vehicle_type),
            clone_text(&self.vehicle_class),
            clone_text(&self.engine),
            clone_text(&self.transmission),
            clone_text(&self.drive_wheels),
            self.weight,
        )
    }
}

fn clone_text(t: &Option<String>) -> (r: Option<String>)
    ensures
        opt_text(r) == opt_text(*t),
{
    match t {
        Some(s) => Some(s.clone()),
        None => None,
    }
}

} // verus!
