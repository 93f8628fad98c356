//! Preparation of the raw signal CSV text before it is parsed: the "nan"
//! markers and stray ';' separators are removed, so that the fields they
//! stood in read as empty (absent) values.
use vstd::prelude::*;

verus! {

/// The bytes of "nan".
pub open spec fn nan_bytes() -> Seq<u8> {
    seq![110u8, 97u8, 110u8]
}

/// The byte of ';'.
pub open spec fn semicolon_bytes() -> Seq<u8> {
    seq![59u8]
}

/// Whether `pat` occurs in `s` at index `i`.
pub open spec fn occurs_at(s: Seq<u8>, pat: Seq<u8>, i: int) -> bool {
    0 <= i && i + pat.len() <= s.len() && s.subrange(i, i + pat.len()) == pat
}

/// `s` from index `i` on, with the occurrences of the non-empty `pat` removed,
/// scanning left to right without overlap.
pub open spec fn removed_from(s: Seq<u8>, pat: Seq<u8>, i: int) -> Seq<u8>
    decreases s.len() - i,
{
    if i < 0 || i >= s.len() || pat.len() == 0 {
        if 0 <= i < s.len() {
            s.subrange(i, s.len() as int)
        } else {
            Seq::empty()
        }
    } else if occurs_at(s, pat, i) {
        removed_from(s, pat, i + pat.len())
    } else {
        seq![s[i]] + removed_from(s, pat, i + 1)
    }
}

/// The CSV text with "nan" removed, then ';' removed.
pub open spec fn sanitized(s: Seq<u8>) -> Seq<u8> {
    removed_from(removed_from(s, nan_bytes(), 0), semicolon_bytes(), 0)
}

fn occurs(data: &Vec<u8>, pat: &Vec<u8>, i: usize) -> (r: bool)
    requires
        i < data.len(),
    ensures
        r == occurs_at(data@, pat@, i as int),
{
    if pat.len() > data.len() - i {
        return false;
    }
    let mut k: usize = 0;
    while k < pat.len()
        invariant
            k <= pat.len(),
            i + pat.len() <= data.len(),
            forall|j: int| 0 <= j < k ==> data@[i + j] == pat@[j],
        decreases pat.len() - k,
    {
        if data[i + k] != pat[k] {
            assert(data@.subrange(i as int, i + pat.len())[k as int] != pat@[k as int]);
            return false;
        }
        k = k + 1;
    }
    assert(data@.subrange(i as int, i + pat.len()) =~= pat@);
    true
}

/// `data` with every occurrence of the non-empty `pat` removed, left to right.
pub fn remove_pattern(data: &Vec<u8>, pat: &Vec<u8>) -> (r: Vec<u8>)
    requires
        pat.len() > 0,
    ensures
        r@ == removed_from(data@, pat@, 0),
{
    let mut out: Vec<u8> = Vec::new();
    let mut i: usize = 0;
    while i < data.len()
        invariant
            pat.len() > 0,
            i <= data.len(),
            out@ + removed_from(data@, pat@, i as int) == removed_from(data@, pat@, 0),
        decreases data.len() - i,
    {
        if occurs(data, pat, i) {
            i = i + pat.len();
        } else {
            let ghost before = out@;
            out.push(data[i]);
            assert(out@ + removed_from(data@, pat@, i + 1) =~= before + removed_from(data@, pat@, i as int));
            i = i + 1;
        }
    }
    assert(removed_from(data@, pat@, i as int) =~= Seq::empty());
    assert(out@ + removed_from(data@, pat@, i as int) =~= out@);
    out
}

/// Removes the "nan" markers, then the ';' characters, from raw CSV bytes.
pub fn sanitize_csv(data: &Vec<u8>) -> (r: Vec<u8>)
    ensures
        r@ == sanitized(data@),
{
    let nan: Vec<u8> = vec![110u8, 97u8, 110u8];
    let semicolon: Vec<u8> = vec![59u8];
    assert(nan@ =~= nan_bytes());
    assert(semicolon@ =~= semicolon_bytes());
    let without_nan = remove_pattern(data, &nan);
    remove_pattern(&without_nan, &semicolon)
}

} // verus!
