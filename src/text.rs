//! Character-level helpers shared by the modules that build strings.

use vstd::prelude::*;

verus! {

/// Relies on `str::chars` collected into a `Vec`: the characters of `s`, in order.
#[verifier::external_body]
pub(crate) fn chars_of(s: &str) -> (r: Vec<char>)
    ensures
        r@ == s@,
{
    s.chars().collect()
}

/// Relies on collecting a slice of `char` into a `String`: the same characters, in order.
#[verifier::external_body]
pub(crate) fn string_from_chars(cs: &[char]) -> (r: String)
    ensures
        r@ == cs@,
{
    cs.iter().collect()
}

/// Whether `c` lies in the UTF-16 surrogate range `U+D800..=U+DFFF`.
pub open spec fn is_surrogate(c: char) -> bool {
    0xD800 <= c as u32 <= 0xDFFF
}

/// Drops the characters in the surrogate range, keeping the others in order.
pub fn sanitize_surrogates(text: String) -> (r: String)
    ensures
        r@ == text@.filter(|c: char| !is_surrogate(c)),
{
    let cs = chars_of(text.as_str());
    let mut out: Vec<char> = Vec::new();
    let mut i: usize = 0;
    while i < cs.len()
        invariant
            cs@ == text@,
            i <= cs@.len(),
            out@ == cs@.take(i as int).filter(|c: char| !is_surrogate(c)),
        decreases cs@.len() - i,
    {
        let c = cs[i];
        let code_point = c as u32;
        proof {
            reveal(Seq::filter);
            assert(cs@.take(i + 1).drop_last() =~= cs@.take(i as int));
        }
        if code_point < 0xD800 || code_point > 0xDFFF {
            out.push(c);
        }
        i = i + 1;
    }
    assert(cs@.take(cs@.len() as int) =~= cs@);
    string_from_chars(out.as_slice())
}

} // verus!
