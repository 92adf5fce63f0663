//! Trusted shims over the outside collaborators: the random number
//! generator, the identifier generator, the wall clock, and the one std
//! string routine vstd gives no specification for.  Each wrapper makes
//! exactly one outside call; nothing else in the crate touches these
//! crates directly.

use vstd::prelude::*;

verus! {

/// Relies on rand::random::<bool>: a fair binary trial.  Nothing can be
/// promised of a random outcome beyond its range: the cast of a bool is
/// 0 or 1.
#[verifier::external_body]
pub(crate) fn coin_flip() -> (r: u8)
    ensures
        r <= 1,
{
    rand::random::<bool>() as u8
}

/// Relies on uuid::Uuid::new_v4 and uuid::Uuid::to_string: a freshly drawn
/// version-4 identifier, rendered in the documented hyphenated form of 36
/// ASCII characters.  The draw is random, so no uniqueness is promised.
#[verifier::external_body]
pub(crate) fn fresh_id() -> (r: String)
    ensures
        r@.len() == 36,
{
    uuid::Uuid::new_v4().to_string()
}

/// Relies on uuid::Uuid::new_v4 and uuid::Uuid::to_string as `fresh_id`
/// does, keeping the first eight characters of the hyphenated form (all
/// ASCII hex digits, so the cut is safe).  The draw is random, so nothing
/// more than the length is promised.
#[verifier::external_body]
pub(crate) fn fresh_short_id() -> (r: String)
    ensures
        r@.len() == 8,
{
    uuid::Uuid::new_v4().to_string()[..8].to_string()
}

/// Relies on std::time::SystemTime::now and
/// std::time::SystemTime::duration_since: milliseconds since the Unix epoch.
/// The clock is outside the model, so nothing is promised of the value.
#[verifier::external_body]
pub fn ts() -> (r: u128)
{
    std::time::SystemTime::now()
        .duration_since(std::time::UNIX_EPOCH)
        .map(|d| d.as_millis())
        .unwrap_or(0)
}

/// A character with the Unicode White_Space property, the set
/// char::is_whitespace documents.
pub open spec fn spec_is_whitespace(c: char) -> bool {
    ||| c == '\u{0009}'
    ||| c == '\u{000A}'
    ||| c == '\u{000B}'
    ||| c == '\u{000C}'
    ||| c == '\u{000D}'
    ||| c == '\u{0020}'
    ||| c == '\u{0085}'
    ||| c == '\u{00A0}'
    ||| c == '\u{1680}'
    ||| ('\u{2000}' <= c && c <= '\u{200A}')
    ||| c == '\u{2028}'
    ||| c == '\u{2029}'
    ||| c == '\u{202F}'
    ||| c == '\u{205F}'
    ||| c == '\u{3000}'
}

/// `s` without its leading whitespace.
pub open spec fn spec_trim_front(s: Seq<char>) -> Seq<char>
    decreases s.len(),
{
    if s.len() > 0 && spec_is_whitespace(s[0]) {
        spec_trim_front(s.drop_first())
    } else {
        s
    }
}

/// `s` without its trailing whitespace.
pub open spec fn spec_trim_back(s: Seq<char>) -> Seq<char>
    decreases s.len(),
{
    if s.len() > 0 && spec_is_whitespace(s[s.len() - 1]) {
        spec_trim_back(s.drop_last())
    } else {
        s
    }
}

/// `s` without leading or trailing whitespace.
pub open spec fn spec_trim(s: Seq<char>) -> Seq<char> {
    spec_trim_back(spec_trim_front(s))
}

/// Relies on str::trim: the string slice with leading and trailing
/// whitespace removed, whitespace being the Unicode White_Space property.
#[verifier::external_body]
pub(crate) fn trim_str(s: &String) -> (r: String)
    ensures
        r@ == spec_trim(s@),
{
    s.trim().to_string()
}

} // verus!