use vstd::prelude::*;
use crate::params::PRIME_ORDER;
use crate::element::FE;

verus! {

/// Why a value could not be turned into a field element.
#[derive(Debug, Clone, Copy, PartialEq, Eq, Structural)]
pub enum FieldError {
    /// The text is not an integer in the requested radix.
    InvalidDigits,
    /// The parsed integer is not below the prime.
    OutOfRange,
    /// A serialized value is not below the prime.
    InvalidEncoding,
}

/// The value of a digit character: 0-9, then a-z and A-Z for 10 to 35;
/// 36 for any other character, which no radix accepts.
pub open spec fn digit_of(c: char) -> int {
    let u = c as u32;
    if '0' as u32 <= u <= '9' as u32 {
        u - '0' as u32
    } else if 'a' as u32 <= u <= 'z' as u32 {
        u - 'a' as u32 + 10
    } else if 'A' as u32 <= u <= 'Z' as u32 {
        u - 'A' as u32 + 10
    } else {
        36
    }
}

/// The integer that a string of digits writes in `radix`.
pub open spec fn digits_value(d: Seq<char>, radix: int) -> int
    decreases d.len(),
{
    if d.len() == 0 {
        0
    } else {
        digits_value(d.drop_last(), radix) * radix + digit_of(d.last())
    }
}

/// The text after an optional leading `+`.
pub open spec fn unsigned_part(s: Seq<char>) -> Seq<char> {
    if s.len() > 0 && s[0] == '+' {
        s.skip(1)
    } else {
        s
    }
}

/// What `u64::from_str_radix` makes of a text: an optional `+` and then at
/// least one digit below the radix, with a value that fits in 64 bits, is
/// that value; anything else is no integer.
pub open spec fn parsed_u64(s: Seq<char>, radix: u32) -> Option<u64> {
    let d = unsigned_part(s);
    if d.len() > 0 && (forall|i: int| 0 <= i < d.len() ==> #[trigger] digit_of(d[i]) < radix)
        && digits_value(d, radix as int) <= u64::MAX {
        Some(digits_value(d, radix as int) as u64)
    } else {
        None
    }
}

/// Relies on u64::from_str_radix, as documented: an optional `+` followed
/// by digits 0-9, a-z, A-Z below the radix; empty text, any other
/// character and a value too large for u64 are errors; a radix outside
/// 2..=36 panics. Its error is dropped, as only success matters here.
#[verifier::external_body]
fn parse_u64(s: &str, radix: u32) -> (r: Option<u64>)
    requires
        2 <= radix <= 36,
    ensures
        r == parsed_u64(s@, radix),
{
    u64::from_str_radix(s, radix).ok()
}

impl FE {
    /// Turns the result of parsing an integer into an element: no integer
    /// is `InvalidDigits`, one not below the prime is `OutOfRange`.
    pub fn from_parsed(parsed: Option<u64>) -> (r: Result<FE, FieldError>)
        ensures
            parsed is None ==> r == Err::<FE, FieldError>(FieldError::InvalidDigits),
            parsed matches Some(v) ==> (v >= PRIME_ORDER <==> r == Err::<FE, FieldError>(FieldError::OutOfRange)),
            parsed matches Some(v) ==> (v < PRIME_ORDER <==> r is Ok),
            r matches Ok(e) ==> parsed matches Some(v) && e@ == v,
    {
        match parsed {
            None => Err(FieldError::InvalidDigits),
            Some(v) => match FE::from_reduced(v) {
                Some(e) => Ok(e),
                None => Err(FieldError::OutOfRange),
            },
        }
    }

    /// Parses a canonical residue written in `radix`.
    pub fn from_str_radix(s: &str, radix: u32) -> (r: Result<FE, FieldError>)
        requires
            2 <= radix <= 36,
        ensures
            parsed_u64(s@, radix) is None ==> r == Err::<FE, FieldError>(FieldError::InvalidDigits),
            parsed_u64(s@, radix) matches Some(v) ==> (v >= PRIME_ORDER <==> r == Err::<FE, FieldError>(FieldError::OutOfRange)),
            parsed_u64(s@, radix) matches Some(v) ==> (v < PRIME_ORDER <==> r is Ok),
            r matches Ok(e) ==> parsed_u64(s@, radix) matches Some(v) && e@ == v,
    {
        FE::from_parsed(parse_u64(s, radix))
    }

    /// The serialized form of the element: its canonical residue.
    pub fn to_wire(self) -> (r: u64)
        ensures
            r == self@,
    {
        self.value()
    }

    /// Reads a serialized element; a value not below the prime is
    /// `InvalidEncoding`.
    pub fn from_wire(v: u64) -> (r: Result<FE, FieldError>)
        ensures
            r is Ok <==> v < PRIME_ORDER,
            v >= PRIME_ORDER ==> r == Err::<FE, FieldError>(FieldError::InvalidEncoding),
            r matches Ok(e) ==> e@ == v,
    {
        match FE::from_reduced(v) {
            Some(e) => Ok(e),
            None => Err(FieldError::InvalidEncoding),
        }
    }
}

} // verus!
