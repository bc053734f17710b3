//! The named formatting filters: snake, upper_snake and capitalize. Each is a
//! pure string-to-string function.

use vstd::prelude::*;
use vstd::string::StringExecFns;
use vstd::string::StrSliceExecFns;
use convert_case::Case;
use convert_case::Casing;

verus! {

/// The lower_snake_case form of a string. The transform (word-boundary
/// detection and lowercasing) depends on the characters alone.
pub uninterp spec fn snake_of(s: Seq<char>) -> Seq<char>;

/// The UPPER_SNAKE_CASE form of a string. The transform depends on the
/// characters alone.
pub uninterp spec fn upper_snake_of(s: Seq<char>) -> Seq<char>;

/// The uppercase mapping of one character (one or more characters). It
/// depends on the character alone.
pub uninterp spec fn upper_of(c: char) -> Seq<char>;

/// Relies on convert_case::Casing::to_case with Case::Snake: splits words at
/// case and separator boundaries, lowercases them and joins with "_".
#[verifier::external_body]
pub(crate) fn snake(s: &str) -> (r: String)
    ensures
        r@ == snake_of(s@),
{
    s.to_case(Case::Snake)
}

/// Relies on convert_case::Casing::to_case with Case::UpperSnake: splits
/// words at case and separator boundaries, uppercases them and joins with
/// "_".
#[verifier::external_body]
pub(crate) fn upper_snake(s: &str) -> (r: String)
    ensures
        r@ == upper_snake_of(s@),
{
    s.to_case(Case::UpperSnake)
}

/// Relies on char::to_uppercase: yields the uppercase mapping of the
/// character, or the character itself when it has none.
#[verifier::external_body]
fn char_upper(c: char) -> (r: String)
    ensures
        r@ == upper_of(c),
{
    c.to_uppercase().collect()
}

/// The capitalized form of a string: the first character uppercased, the
/// remainder unchanged; empty stays empty.
pub open spec fn capitalize_spec(s: Seq<char>) -> Seq<char> {
    if s.len() == 0 {
        s
    } else {
        upper_of(s[0]) + s.drop_first()
    }
}

/// Uppercases the first character only, leaving the remainder unchanged.
pub fn capitalize(s: &str) -> (r: String)
    ensures
        r@ == capitalize_spec(s@),
{
    let n = s.unicode_len();
    if n == 0 {
        return String::new();
    }
    let mut r = char_upper(s.get_char(0));
    let rest = s.substring_char(1, n);
    r.append(rest);
    proof {
        assert(s@.subrange(1, n as int) =~= s@.drop_first());
    }
    r
}

} // verus!
