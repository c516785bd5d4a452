//! Identifier normalization and the textual parts of the registration policy.

use vstd::prelude::*;

verus! {

/// Shortest password (in characters) the registration policy accepts.
pub const PASSWORD_MIN_CHARS: usize = 12;

/// Longest password (in characters) the registration policy accepts.
pub const PASSWORD_MAX_CHARS: usize = 256;

/// The Unicode lowercase form of a string, exactly as `str::to_lowercase`
/// computes it: a function of the input characters alone.
pub uninterp spec fn lower_of(s: Seq<char>) -> Seq<char>;

/// Relies on `str::to_lowercase` (std): returns the Unicode lowercase form of
/// `s`, which depends on the characters of `s` alone.
#[verifier::external_body]
pub(crate) fn to_lowercase(s: &str) -> (r: String)
    ensures
        r@ == lower_of(s@),
{
    s.to_lowercase()
}

/// An ASCII letter or digit, the only characters the identifier policy admits.
pub open spec fn is_ascii_alnum(c: char) -> bool {
    ||| 'a' as u32 <= c as u32 && c as u32 <= 'z' as u32
    ||| 'A' as u32 <= c as u32 && c as u32 <= 'Z' as u32
    ||| '0' as u32 <= c as u32 && c as u32 <= '9' as u32
}

/// The identifier policy: non-empty and ASCII alphanumerics only.
/// It is checked on the lowercase-normalized identifier.
pub open spec fn valid_identifier(s: Seq<char>) -> bool {
    s.len() > 0 && (forall|i: int| 0 <= i < s.len() ==> is_ascii_alnum(#[trigger] s[i]))
}

/// The password policy: the number of characters lies in
/// [`PASSWORD_MIN_CHARS`, `PASSWORD_MAX_CHARS`].
pub open spec fn valid_password_length(s: Seq<char>) -> bool {
    PASSWORD_MIN_CHARS <= s.len() && s.len() <= PASSWORD_MAX_CHARS
}

/// Decide the identifier policy for a (normalized) identifier.
pub fn identifier_ok(s: &str) -> (r: bool)
    ensures
        r == valid_identifier(s@),
{
    if s.is_empty() {
        return false;
    }
    let mut ok: bool = true;
    for c in it: s.chars()
        invariant
            it.seq() == s@,
            ok <==> (forall|i: int| 0 <= i < it.index() ==> is_ascii_alnum(#[trigger] it.seq()[i])),
    {
        let u = c as u32;
        let c_ok = (97 <= u && u <= 122) || (65 <= u && u <= 90) || (48 <= u && u <= 57);
        ok = ok && c_ok;
    }
    ok
}

/// Decide the password-length policy by counting characters, stopping as soon
/// as the count exceeds the longest admissible length.
pub fn password_length_ok(s: &str) -> (r: bool)
    ensures
        r == valid_password_length(s@),
{
    let mut n: usize = 0;
    for _c in it: s.chars()
        invariant
            it.seq() == s@,
            n as int == if it.index() <= PASSWORD_MAX_CHARS + 1 {
                it.index() as int
            } else {
                PASSWORD_MAX_CHARS + 1
            },
    {
        if n <= PASSWORD_MAX_CHARS {
            n = n + 1;
        }
    }
    PASSWORD_MIN_CHARS <= n && n <= PASSWORD_MAX_CHARS
}

} // verus!
