//! Tool-function names on the wire may only use ASCII letters, digits,
//! underscore and hyphen. The encoder repairs names by replacing every
//! other character with an underscore; the decoder rejects invalid names
//! outright, since a repaired name could no longer be matched against the
//! tool registry.

use vstd::prelude::*;

use crate::chars::push_char;

verus! {

/// A character the wire protocol accepts in a tool-function name.
pub open spec fn is_allowed_name_char(c: char) -> bool {
    ||| 'a' as u32 <= c as u32 && c as u32 <= 'z' as u32
    ||| 'A' as u32 <= c as u32 && c as u32 <= 'Z' as u32
    ||| '0' as u32 <= c as u32 && c as u32 <= '9' as u32
    ||| c == '_'
    ||| c == '-'
}

/// The repaired form of a name: allowed characters kept, every other
/// character replaced by an underscore, one for one.
pub open spec fn spec_sanitize_name(s: Seq<char>) -> Seq<char> {
    s.map_values(|c: char| if is_allowed_name_char(c) { c } else { '_' })
}

/// A name is valid when it is non-empty and every character is allowed.
pub open spec fn spec_is_valid_name(s: Seq<char>) -> bool {
    s.len() > 0 && (forall|i: int| 0 <= i < s.len() ==> is_allowed_name_char(#[trigger] s[i]))
}

#[verifier::when_used_as_spec(is_allowed_name_char)]
pub fn name_char_allowed(c: char) -> (b: bool)
    ensures
        b == is_allowed_name_char(c),
{
    let u = c as u32;
    ('a' as u32 <= u && u <= 'z' as u32) || ('A' as u32 <= u && u <= 'Z' as u32) || ('0' as u32
        <= u && u <= '9' as u32) || c == '_' || c == '-'
}

/// Replace every character outside the allowed set with an underscore.
/// Length (in characters) is preserved.
pub fn sanitize_function_name(name: &str) -> (r: String)
    ensures
        r@ == spec_sanitize_name(name@),
{
    let n = name.unicode_len();
    let mut out = String::new();
    let mut i: usize = 0;
    while i < n
        invariant
            i <= n,
            n == name@.len(),
            out@ == spec_sanitize_name(name@.take(i as int)),
        decreases n - i,
    {
        let c = name.get_char(i);
        if name_char_allowed(c) {
            push_char(&mut out, c);
        } else {
            push_char(&mut out, '_');
        }
        i = i + 1;
        proof {
            assert(name@.take(i as int).drop_last() =~= name@.take(i - 1));
            assert(out@ =~= spec_sanitize_name(name@.take(i as int)));
        }
    }
    proof {
        assert(name@.take(n as int) =~= name@);
    }
    out
}

/// True iff the whole name matches the allowed character set and is
/// non-empty.
pub fn is_valid_function_name(name: &str) -> (b: bool)
    ensures
        b == spec_is_valid_name(name@),
{
    let n = name.unicode_len();
    if n == 0 {
        return false;
    }
    let mut i: usize = 0;
    while i < n
        invariant
            i <= n,
            n == name@.len(),
            forall|j: int| 0 <= j < i ==> is_allowed_name_char(#[trigger] name@[j]),
        decreases n - i,
    {
        let c = name.get_char(i);
        if !name_char_allowed(c) {
            return false;
        }
        i = i + 1;
    }
    true
}

} // verus!
