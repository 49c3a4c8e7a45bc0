use vstd::prelude::*;
use vstd::string::StringSliceAdditionalSpecFns;

verus! {

/// Whether `content` is acceptable in a numeric field of the configuration
/// form: every character is an ASCII digit or `-`. (Neither kind of character
/// occurs inside the UTF-8 encoding of another, so this is a property of the
/// encoded bytes.)
pub open spec fn is_number_text(bytes: Seq<u8>) -> bool {
    forall|i: int| 0 <= i < bytes.len() ==> is_number_byte(#[trigger] bytes[i])
}

/// An ASCII digit or `-`.
pub open spec fn is_number_byte(b: u8) -> bool {
    (48u8 <= b && b <= 57u8) || b == 45u8
}

/// Whether an edit of a numeric field of the configuration form is taken.
pub fn accepts_number_input(content: &str) -> (r: bool)
    ensures
        r == is_number_text(content.spec_bytes()),
{
    let bytes = content.as_bytes();
    let mut i: usize = 0;
    while i < bytes.len()
        invariant
            bytes@ == content.spec_bytes(),
            i <= bytes@.len(),
            forall|j: int| 0 <= j < i ==> is_number_byte(#[trigger] bytes@[j]),
        decreases bytes@.len() - i,
    {
        let b = bytes[i];
        // '0' to '9', and '-'
        if !((48u8 <= b && b <= 57u8) || b == 45u8) {
            return false;
        }
        i = i + 1;
    }
    true
}

/// The result of `str::parse::<i64>` on `s`, when it succeeds.
pub uninterp spec fn i64_of(s: Seq<char>) -> Option<i64>;

/// Relies on `str::parse::<i64>`: whether the text reads as an `i64`, and as
/// which, depends on its characters alone; empty text does not read as one.
#[verifier::external_body]
fn parse_i64(s: &str) -> (r: Option<i64>)
    ensures
        r == i64_of(s@),
        s@.len() == 0 ==> r is None,
{
    s.parse::<i64>().ok()
}

/// The number that an accepted edit `content` of a required numeric field
/// stands for: what it reads as, or `fallback` when it reads as no `i64`.
pub open spec fn number_or(content: Seq<char>, fallback: i64) -> i64 {
    match i64_of(content) {
        Some(v) => v,
        None => fallback,
    }
}

/// What `content` reads as, or `fallback` when it reads as no `i64`.
pub fn parsed_or(content: &str, fallback: i64) -> (r: i64)
    ensures
        r == number_or(content@, fallback),
{
    match parse_i64(content) {
        Some(v) => v,
        None => fallback,
    }
}

/// The new value of a required numeric field after the edit `content`, or
/// `None` when the edit is refused and the field keeps its value.
pub fn number_field_edit(content: &str, fallback: i64) -> (r: Option<i64>)
    ensures
        r == if is_number_text(content.spec_bytes()) {
            Some(number_or(content@, fallback))
        } else {
            None
        },
{
    if accepts_number_input(content) {
        Some(parsed_or(content, fallback))
    } else {
        None
    }
}

/// The new value of an optional numeric field after the edit `content`, or
/// `None` when the edit is refused: empty text clears the field, and other
/// accepted text sets it to what it reads as, or to 0.
pub fn optional_number_field_edit(content: &str) -> (r: Option<Option<i64>>)
    ensures
        r == if !is_number_text(content.spec_bytes()) {
            None
        } else if content@.len() == 0 {
            Some(None)
        } else {
            Some(Some(number_or(content@, 0)))
        },
{
    if !accepts_number_input(content) {
        None
    } else if content.is_empty() {
        Some(None)
    } else {
        Some(Some(parsed_or(content, 0)))
    }
}

} // verus!
