//! Decoding of encoded polylines (the variable-length base-32 format used by
//! routing services), on integer coordinates at the encoding's precision.
use vstd::prelude::*;

verus! {

/// Largest number of 5-bit chunks in one encoded value; enough for any
/// 32-bit difference between consecutive coordinates.
pub const MAX_CHUNKS: usize = 7;

/// The 5 payload bits of an encoded character (its code minus 63, modulo 32).
pub open spec fn chunk_bits(c: char) -> int {
    ((c as u32) as int - 63) % 32
}

/// Whether an encoded character is followed by another chunk of the same value.
pub open spec fn has_more(c: char) -> bool {
    (c as u32) as int - 63 >= 32
}

/// The little-endian base-32 value whose chunks start at `i`, using at most
/// `budget` chunks: its value and the index just after its last chunk.
pub open spec fn chunk_value(s: Seq<char>, i: int, budget: nat) -> Option<(int, int)>
    decreases budget,
{
    if budget == 0 || i < 0 || i >= s.len() {
        None
    } else if !has_more(s[i]) {
        Some((chunk_bits(s[i]), i + 1))
    } else {
        match chunk_value(s, i + 1, (budget - 1) as nat) {
            Some((v, e)) => Some((chunk_bits(s[i]) + 32 * v, e)),
            None => None,
        }
    }
}

/// Signed difference carried by an unsigned value (zig-zag encoding).
pub open spec fn zigzag(v: int) -> int {
    if v % 2 == 1 {
        -(v / 2) - 1
    } else {
        v / 2
    }
}

/// The coordinate that follows `previous` in a polyline, read from index
/// `pos`, with the index after it; `None` where the text ends inside the value,
/// the value is longer than `MAX_CHUNKS`, or the sum leaves the `i64` range.
pub open spec fn coordinate_at(s: Seq<char>, pos: int, previous: i64) -> Option<(i64, int)> {
    match chunk_value(s, pos, MAX_CHUNKS as nat) {
        Some((v, e)) => {
            let c = previous as int + zigzag(v);
            if i64::MIN <= c <= i64::MAX {
                Some((c as i64, e))
            } else {
                None
            }
        },
        None => None,
    }
}

/// The (latitude, longitude) pairs of a polyline read from index `pos`,
/// following the pair (`lat`, `lon`); decoding stops at the first pair that
/// cannot be read whole.
pub open spec fn decode_from(s: Seq<char>, pos: int, lat: i64, lon: i64) -> Seq<(i64, i64)>
    decreases s.len() - pos,
{
    match coordinate_at(s, pos, lat) {
        Some((la, lat_end)) => match coordinate_at(s, lat_end, lon) {
            Some((lo, lon_end)) => if pos < lon_end <= s.len() {
                seq![(la, lo)] + decode_from(s, lon_end, la, lo)
            } else {
                Seq::empty()
            },
            None => Seq::empty(),
        },
        None => Seq::empty(),
    }
}

/// The pairs that a whole polyline decodes to.
pub open spec fn decoded(s: Seq<char>) -> Seq<(i64, i64)> {
    decode_from(s, 0, 0, 0)
}

/// A value read from `i` ends after `i`, within the text and the budget, and
/// fits in as many chunks as it used.
proof fn lemma_chunk_value_bounds(s: Seq<char>, i: int, budget: nat)
    ensures
        chunk_value(s, i, budget) matches Some((v, e)) ==> {
            &&& i < e <= s.len()
            &&& e <= i + budget
            &&& 0 <= v < vstd::arithmetic::power::pow(32, (e - i) as nat)
        },
    decreases budget,
{
    reveal(vstd::arithmetic::power::pow);
    vstd::arithmetic::power::lemma_pow1(32);
    if budget > 0 && 0 <= i < s.len() && has_more(s[i]) {
        lemma_chunk_value_bounds(s, i + 1, (budget - 1) as nat);
        if let Some((v, e)) = chunk_value(s, i + 1, (budget - 1) as nat) {
            let p = vstd::arithmetic::power::pow(32, (e - i - 1) as nat);
            assert(vstd::arithmetic::power::pow(32, (e - i) as nat) == 32 * p);
            assert(0 <= chunk_bits(s[i]) + 32 * v < 32 * p) by (nonlinear_arith)
                requires
                    0 <= chunk_bits(s[i]) < 32,
                    0 <= v < p,
            ;
        }
    }
}

proof fn lemma_scale_bound(n: nat)
    requires
        n <= MAX_CHUNKS,
    ensures
        vstd::arithmetic::power::pow(32, n) <= 34359738368,
        n < MAX_CHUNKS ==> vstd::arithmetic::power::pow(32, n) <= 1073741824,
{
    reveal_with_fuel(vstd::arithmetic::power::pow, 8);
}

/// Reads the coordinate that follows `previous`, starting at `pos`: the new
/// coordinate and the index after it.
pub fn parse_polyline_coordinate(chars: &Vec<char>, pos: usize, previous: i64) -> (r: Option<(i64, usize)>)
    ensures
        r matches Some((c, e)) ==> coordinate_at(chars@, pos as int, previous) == Some((c, e as int)),
        r is None ==> coordinate_at(chars@, pos as int, previous) is None,
{
    let ghost s = chars@;
    let mut result: i64 = 0;
    let mut scale: i64 = 1;
    let mut count: usize = 0;
    let mut i: usize = pos;
    proof {
        reveal(vstd::arithmetic::power::pow);
    }
    loop
        invariant_except_break
            chunk_value(s, pos as int, MAX_CHUNKS as nat) == match chunk_value(
                s,
                i as int,
                (MAX_CHUNKS - count) as nat,
            ) {
                Some((v, e)) => Some((result + scale * v, e)),
                None => None,
            },
        invariant
            s == chars@,
            count <= MAX_CHUNKS,
            i == pos + count,
            scale == vstd::arithmetic::power::pow(32, count as nat),
            0 <= result < scale,
        ensures
            chunk_value(s, pos as int, MAX_CHUNKS as nat) == Some((result as int, i as int)),
            0 <= result < 34359738368,
        decreases MAX_CHUNKS - count,
    {
        if i >= chars.len() || count >= MAX_CHUNKS {
            return None;
        }
        let ch: char = chars[i];
        let code: u32 = ch as u32;
        // (code - 63) mod 32, computed without going below zero
        let bits: i64 = ((code % 32 + 1) % 32) as i64;
        assert(bits == chunk_bits(s[i as int])) by (nonlinear_arith)
            requires
                code == ch as u32,
                ch == s[i as int],
                bits == (code % 32 + 1) % 32,
        ;
        proof {
            reveal(vstd::arithmetic::power::pow);
            lemma_scale_bound(count as nat);
            lemma_scale_bound((count + 1) as nat);
            lemma_chunk_value_bounds(s, i + 1, (MAX_CHUNKS - count - 1) as nat);
            assert(scale * 32 == vstd::arithmetic::power::pow(32, (count + 1) as nat));
            assert(0 <= result + scale * bits < scale * 32) by (nonlinear_arith)
                requires
                    0 <= result < scale,
                    0 <= bits < 32,
            ;
            if let Some((v, e)) = chunk_value(s, i + 1, (MAX_CHUNKS - count - 1) as nat) {
                assert(result + scale * (bits + 32 * v) == (result + scale * bits) + (scale * 32)
                    * v) by (nonlinear_arith);
            }
        }
        result = result + scale * bits;
        i = i + 1;
        count = count + 1;
        scale = scale * 32;
        // code - 63 < 32: the value's last chunk
        if code < 95 {
            break;
        }
    }
    let delta: i64 = if result % 2 == 1 {
        -(result / 2) - 1
    } else {
        result / 2
    };
    match previous.checked_add(delta) {
        Some(c) => Some((c, i)),
        None => None,
    }
}

proof fn lemma_coordinate_advances(s: Seq<char>, pos: int, previous: i64)
    ensures
        coordinate_at(s, pos, previous) matches Some((c, e)) ==> pos < e <= s.len(),
{
    lemma_chunk_value_bounds(s, pos, MAX_CHUNKS as nat);
}

/// The characters of a text, in order.
pub fn chars_of(text: &str) -> (r: Vec<char>)
    ensures
        r@ == text@,
{
    let mut r: Vec<char> = Vec::new();
    for c in it: text.chars()
        invariant
            r@ == it.seq().subrange(0, it.index() as int),
            it.seq() == text@,
    {
        r.push(c);
    }
    assert(r@ =~= text@);
    r
}

/// Decodes a polyline into (latitude, longitude) pairs, in units of the
/// encoding's precision (millionths of a degree for precision 6). Decoding
/// stops at the first pair that the text does not hold whole.
pub fn decode_polyline(polyline: &str) -> (shape: Vec<(i64, i64)>)
    ensures
        shape@ == decoded(polyline@),
{
    let chars = chars_of(polyline);
    let ghost s = chars@;
    let mut shape: Vec<(i64, i64)> = Vec::new();
    let mut pos: usize = 0;
    let mut lat: i64 = 0;
    let mut lon: i64 = 0;
    loop
        invariant
            s == chars@,
            s == polyline@,
            pos <= s.len(),
            shape@ + decode_from(s, pos as int, lat, lon) == decoded(s),
        ensures
            shape@ == decoded(s),
        decreases s.len() - pos,
    {
        proof {
            lemma_coordinate_advances(s, pos as int, lat);
        }
        match parse_polyline_coordinate(&chars, pos, lat) {
            None => {
                assert(decode_from(s, pos as int, lat, lon) =~= Seq::empty());
                assert(shape@ + decode_from(s, pos as int, lat, lon) =~= shape@);
                break;
            },
            Some((la, lat_end)) => {
                proof {
                    lemma_coordinate_advances(s, lat_end as int, lon);
                }
                match parse_polyline_coordinate(&chars, lat_end, lon) {
                    None => {
                        assert(decode_from(s, pos as int, lat, lon) =~= Seq::empty());
                        assert(shape@ + decode_from(s, pos as int, lat, lon) =~= shape@);
                        break;
                    },
                    Some((lo, lon_end)) => {
                        assert(decode_from(s, pos as int, lat, lon) == seq![(la, lo)] + decode_from(
                            s,
                            lon_end as int,
                            la,
                            lo,
                        ));
                        shape.push((la, lo));
                        assert(shape@ + decode_from(s, lon_end as int, la, lo) =~= decoded(s));
                        pos = lon_end;
                        lat = la;
                        lon = lo;
                    },
                }
            },
        }
    }
    shape
}

} // verus!
