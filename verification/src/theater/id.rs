//! Actor identifiers.
//!
//! The server names every actor by a UUID. Parsing and printing are the
//! `uuid` crate's; an identifier here is the 128-bit value that the crate
//! parsed.

use vstd::prelude::*;
use vstd::arithmetic::power::pow;
use vstd::string::StringExecFns;

verus! {

/// A parse error of `uuid`.
#[verifier::external_type_specification]
#[verifier::external_body]
pub struct ExUuidError(uuid::Error);

/// The value that `Uuid::parse_str` reads from `text`, where it accepts the text.
pub uninterp spec fn uuid_parse(text: Seq<char>) -> Option<u128>;

/// The character for a hexadecimal digit, in lower case.
pub open spec fn hex_digit(d: int) -> char
    recommends
        0 <= d < 16,
{
    if d == 0 {
        '0'
    } else if d == 1 {
        '1'
    } else if d == 2 {
        '2'
    } else if d == 3 {
        '3'
    } else if d == 4 {
        '4'
    } else if d == 5 {
        '5'
    } else if d == 6 {
        '6'
    } else if d == 7 {
        '7'
    } else if d == 8 {
        '8'
    } else if d == 9 {
        '9'
    } else if d == 10 {
        'a'
    } else if d == 11 {
        'b'
    } else if d == 12 {
        'c'
    } else if d == 13 {
        'd'
    } else if d == 14 {
        'e'
    } else {
        'f'
    }
}

/// How many hyphens stand before position `at` of an identifier's text.
pub open spec fn hyphens_before(at: int) -> int {
    if at > 23 {
        4
    } else if at > 18 {
        3
    } else if at > 13 {
        2
    } else if at > 8 {
        1
    } else {
        0
    }
}

/// The character at position `at` of an identifier's text: a hyphen after
/// the 8th, 12th, 16th and 20th digit, and otherwise the next of the value's
/// 32 hexadecimal digits, most significant first.
pub open spec fn uuid_char(value: u128, at: int) -> char
    recommends
        0 <= at < 36,
{
    if at == 8 || at == 13 || at == 18 || at == 23 {
        '-'
    } else {
        hex_digit((value as int) / pow(16, (31 - (at - hyphens_before(at))) as nat) % 16)
    }
}

/// The text of an identifier: 36 characters, the value's lower-case
/// hexadecimal digits in groups of 8, 4, 4, 4 and 12 with hyphens between.
pub open spec fn uuid_text(value: u128) -> Seq<char> {
    Seq::new(36, |at: int| uuid_char(value, at))
}

/// `Uuid::parse_str`, and `as_u128` on its result: the parsed value, or the
/// parser's error.
#[verifier::external_body]
fn parse_uuid(text: &str) -> (r: Result<u128, uuid::Error>)
    ensures
        match r {
            Ok(value) => uuid_parse(text@) == Some(value),
            Err(_) => uuid_parse(text@) is None,
        },
{
    uuid::Uuid::parse_str(text).map(|parsed| parsed.as_u128())
}

/// `to_string` on the `Uuid` made by `Uuid::from_u128`: the hyphenated
/// lower-case form, which `parse_str` reads back as the same value.
#[verifier::external_body]
fn print_uuid(value: u128) -> (text: String)
    ensures
        text@ == uuid_text(value),
        uuid_parse(text@) == Some(value),
{
    uuid::Uuid::from_u128(value).to_string()
}

/// `to_string` on a `uuid::Error`: the error's report.
#[verifier::external_body]
fn uuid_error_report(error: &uuid::Error) -> (report: String) {
    error.to_string()
}

/// Whether a value carries the marks of a random identifier: its thirteenth
/// hexadecimal digit, the version, is 4, and the two highest bits of its
/// seventeenth, the variant, are 1 and 0.
pub open spec fn is_random_version(value: u128) -> bool {
    &&& value / 0x1000_0000_0000_0000_0000 % 16 == 4
    &&& value / 0x4000_0000_0000_0000 % 4 == 2
}

/// `Uuid::new_v4`, and `as_u128` on its result: a random identifier. The
/// crate draws 128 random bits and then sets the version to 4 and the
/// variant to the RFC's; that much holds of every outcome, and of the other
/// 122 bits nothing is claimed.
#[verifier::external_body]
fn random_uuid() -> (value: u128)
    ensures
        is_random_version(value),
{
    uuid::Uuid::new_v4().as_u128()
}

/// The identifier of an actor.
#[derive(Clone, Copy, Debug, PartialEq, Eq, Hash)]
pub struct TheaterId {
    value: u128,
}

impl View for TheaterId {
    type V = u128;

    closed spec fn view(&self) -> u128 {
        self.value
    }
}

/// Identifiers to and from their text form.
pub trait TheaterIdExt: Sized {
    /// The identifier in its text form.
    fn as_string(&self) -> String;

    /// The identifier that a text stands for, or why the text stands for none.
    fn from_str(s: &str) -> Result<Self, String>;
}

impl TheaterIdExt for TheaterId {
    fn as_string(&self) -> (text: String)
        ensures
            text@ == uuid_text(self@),
            uuid_parse(text@) == Some(self@),
    {
        print_uuid(self.value)
    }

    fn from_str(s: &str) -> (r: Result<Self, String>)
        ensures
            match r {
                Ok(id) => uuid_parse(s@) == Some(id@),
                Err(report) => uuid_parse(s@) is None && exists|detail: Seq<char>|
                    report@ == "Invalid Theater ID: "@ + detail,
            },
    {
        match TheaterId::parse(s) {
            Ok(id) => Ok(id),
            Err(detail) => Err(String::from_str("Invalid Theater ID: ").concat(detail.as_str())),
        }
    }
}

/// Whether a text is the text of a random identifier.
pub open spec fn is_request_id(text: Seq<char>) -> bool {
    exists|value: u128| is_random_version(value) && text == uuid_text(value)
}

impl TheaterId {
    /// The identifier that a text stands for, or the parser's report on a
    /// text that stands for none.
    pub fn parse(s: &str) -> (r: Result<Self, String>)
        ensures
            match r {
                Ok(id) => uuid_parse(s@) == Some(id@),
                Err(_) => uuid_parse(s@) is None,
            },
    {
        match parse_uuid(s) {
            Ok(value) => Ok(TheaterId { value }),
            Err(error) => Err(uuid_error_report(&error)),
        }
    }

    /// The text of a fresh random identifier, to tell one request from another.
    pub fn request_id() -> (text: String)
        ensures
            is_request_id(text@),
    {
        let id: TheaterId = TheaterId::generate();
        let text: String = id.as_string();
        assert(is_random_version(id@) && text@ == uuid_text(id@));
        text
    }

    /// The identifier with the given 128-bit value.
    pub fn from_u128(value: u128) -> (id: Self)
        ensures
            id@ == value,
    {
        TheaterId { value }
    }

    /// The identifier's 128-bit value.
    pub fn as_u128(&self) -> (value: u128)
        ensures
            value == self@,
    {
        self.value
    }

    /// A fresh random identifier: marked as random by its version and
    /// variant, and otherwise whatever the random source gave.
    pub fn generate() -> (id: Self)
        ensures
            is_random_version(id@),
    {
        TheaterId { value: random_uuid() }
    }
}

} // verus!
