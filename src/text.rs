use vstd::prelude::*;

verus! {

/// The characters with the Unicode `White_Space` property, which
/// `char::is_whitespace` tests for.
pub open spec fn is_white(c: char) -> bool {
    ('\u{9}' <= c && c <= '\u{d}') || c == ' ' || c == '\u{85}' || c == '\u{a0}' || c == '\u{1680}' || (
    '\u{2000}' <= c && c <= '\u{200a}') || c == '\u{2028}' || c == '\u{2029}' || c == '\u{202f}' || c
        == '\u{205f}' || c == '\u{3000}'
}

/// `t` is `s` with its leading and trailing white space cut off.
pub open spec fn is_trim_of(s: Seq<char>, t: Seq<char>) -> bool {
    exists|a: int, b: int|
        #![trigger s.subrange(a, b)]
        {
            &&& 0 <= a <= b <= s.len()
            &&& t == s.subrange(a, b)
            &&& forall|i: int| 0 <= i < a ==> is_white(#[trigger] s[i])
            &&& forall|i: int| b <= i < s.len() ==> is_white(#[trigger] s[i])
            &&& a < b ==> !is_white(s[a]) && !is_white(s[b - 1])
        }
}

/// A string is blank when it is empty or nothing but white space is in it.
pub open spec fn is_blank_spec(s: Seq<char>) -> bool {
    forall|i: int| 0 <= i < s.len() ==> is_white(#[trigger] s[i])
}

/// Relies on `str::trim`: the string without its leading and trailing
/// characters that have the `White_Space` property.
#[verifier::external_body]
fn trim(s: &str) -> (r: &str)
    ensures
        is_trim_of(s@, r@),
{
    s.trim()
}

/// Whether `s` is empty or holds only white space.
pub fn is_blank(s: &str) -> (r: bool)
    ensures
        r == is_blank_spec(s@),
{
    let t = trim(s);
    let r = t.is_empty();
    proof {
        let (a, b) = choose|a: int, b: int|
            {
                &&& 0 <= a <= b <= s@.len()
                &&& #[trigger] s@.subrange(a, b) == t@
                &&& forall|i: int| 0 <= i < a ==> is_white(#[trigger] s@[i])
                &&& forall|i: int| b <= i < s@.len() ==> is_white(#[trigger] s@[i])
                &&& a < b ==> !is_white(s@[a]) && !is_white(s@[b - 1])
            };
        if r {
            assert(a == b);
        } else {
            assert(t@.len() > 0);
            assert(a < b);
            assert(!is_white(s@[a]));
        }
    }
    r
}

} // verus!
