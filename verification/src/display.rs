use vstd::prelude::*;
use vstd::string::StringExecFns;
use crate::error::GuestError;
use crate::region::Region;

verus! {

/// The character for a digit below sixteen.
pub open spec fn digit_char(d: int) -> char {
    if d == 0 {
        '0'
    } else if d == 1 {
        '1'
    } else if d == 2 {
        '2'
    } else if d == 3 {
        '3'
    } else if d == 4 {
        '4'
    } else if d == 5 {
        '5'
    } else if d == 6 {
        '6'
    } else if d == 7 {
        '7'
    } else if d == 8 {
        '8'
    } else {
        '9'
    }
}

/// The number `n` written in decimal, the most significant digit first.
pub open spec fn decimal(n: nat) -> Seq<char>
    decreases n,
{
    if n < 10 {
        seq![digit_char(n as int)]
    } else {
        decimal(n / 10).push(digit_char((n % 10) as int))
    }
}

/// The binary digits of `n`, the most significant first.
pub open spec fn binary_digits(n: nat) -> Seq<char>
    decreases n,
{
    if n < 2 {
        seq![digit_char(n as int)]
    } else {
        binary_digits(n / 2).push(digit_char((n % 2) as int))
    }
}

/// The number `n` written in binary, with the prefix that marks a binary number.
pub open spec fn binary(n: nat) -> Seq<char> {
    "0b"@ + binary_digits(n)
}

/// Returns the digit `d` as a string.
fn digit_str(d: u64) -> (s: &'static str)
    requires
        d < 10,
    ensures
        s@ == seq![digit_char(d as int)],
{
    proof {
        reveal_strlit("0");
        reveal_strlit("1");
        reveal_strlit("2");
        reveal_strlit("3");
        reveal_strlit("4");
        reveal_strlit("5");
        reveal_strlit("6");
        reveal_strlit("7");
        reveal_strlit("8");
        reveal_strlit("9");
    }
    let s = if d == 0 {
        "0"
    } else if d == 1 {
        "1"
    } else if d == 2 {
        "2"
    } else if d == 3 {
        "3"
    } else if d == 4 {
        "4"
    } else if d == 5 {
        "5"
    } else if d == 6 {
        "6"
    } else if d == 7 {
        "7"
    } else if d == 8 {
        "8"
    } else {
        "9"
    };
    assert(s@ =~= seq![digit_char(d as int)]);
    s
}

/// Writes `n` in decimal.
pub fn to_decimal(n: u64) -> (s: String)
    ensures
        s@ == decimal(n as nat),
    decreases n,
{
    if n < 10 {
        String::from_str(digit_str(n))
    } else {
        let head = to_decimal(n / 10);
        let s = head.concat(digit_str(n % 10));
        assert(s@ =~= decimal(n as nat));
        s
    }
}

/// Writes the binary digits of `n`.
fn to_binary_digits(n: u64) -> (s: String)
    ensures
        s@ == binary_digits(n as nat),
    decreases n,
{
    if n < 2 {
        String::from_str(digit_str(n))
    } else {
        let head = to_binary_digits(n / 2);
        let s = head.concat(digit_str(n % 2));
        assert(s@ =~= binary_digits(n as nat));
        s
    }
}

/// Writes `n` in binary, with the prefix that marks a binary number.
pub fn to_binary(n: u64) -> (s: String)
    ensures
        s@ == binary(n as nat),
{
    let digits = to_binary_digits(n);
    String::from_str("0b").concat(digits.as_str())
}

/// A name and a number in round brackets behind it.
pub open spec fn tagged_spec(name: Seq<char>, number: Seq<char>) -> Seq<char> {
    name + "("@ + number + ")"@
}

/// Writes a name and a number in round brackets behind it.
pub fn tagged(name: &str, number: &str) -> (s: String)
    ensures
        s@ == tagged_spec(name@, number@),
{
    let mut s = String::from_str(name);
    s.append("(");
    s.append(number);
    s.append(")");
    s
}

/// How a region is shown: its two fields by name, in decimal.
pub open spec fn region_text(r: Region) -> Seq<char> {
    "Region { start: "@ + decimal(r.start as nat) + ", len: "@ + decimal(r.len as nat) + " }"@
}

/// Writes a region as it is shown in messages.
pub fn region_to_string(r: Region) -> (s: String)
    ensures
        s@ == region_text(r),
{
    let mut s = String::from_str("Region { start: ");
    s.append(to_decimal(r.start as u64).as_str());
    s.append(", len: ");
    s.append(to_decimal(r.len as u64).as_str());
    s.append(" }");
    s
}

/// The message of a failure. A failure that is marked with a place shows
/// the place; what it wraps has a message of its own.
pub open spec fn message_spec(e: GuestError) -> Seq<char> {
    match e {
        GuestError::InvalidFlagValue(name) => "Invalid flag value "@ + name@,
        GuestError::InvalidEnumValue(name) => "Invalid enum value "@ + name@,
        GuestError::PtrOutOfBounds(r) => "Pointer out of bounds: "@ + region_text(r),
        GuestError::PtrNotAligned(r, align) => "Pointer not aligned to "@ + decimal(align as nat)
            + ": "@ + region_text(r),
        GuestError::PtrOverflow => "Pointer overflow"@,
        GuestError::PtrBorrowed(r) => "Pointer already borrowed: "@ + region_text(r),
        GuestError::InFunc { funcname, location, err } => "In func "@ + funcname@ + ":"@
            + location@ + ":"@,
        GuestError::InDataField { typename, field, err } => "In data "@ + typename@ + "."@
            + field@ + ":"@,
        GuestError::InvalidUtf8 => "Invalid UTF-8 encountered"@,
    }
}

impl GuestError {
    /// Returns the message of the failure.
    pub fn message(&self) -> (s: String)
        ensures
            s@ == message_spec(*self),
    {
        match self {
            GuestError::InvalidFlagValue(name) => String::from_str("Invalid flag value ").concat(
                name.as_str(),
            ),
            GuestError::InvalidEnumValue(name) => String::from_str("Invalid enum value ").concat(
                name.as_str(),
            ),
            GuestError::PtrOutOfBounds(r) => String::from_str("Pointer out of bounds: ").concat(
                region_to_string(*r).as_str(),
            ),
            GuestError::PtrNotAligned(r, align) => {
                let mut s = String::from_str("Pointer not aligned to ");
                s.append(to_decimal(*align as u64).as_str());
                s.append(": ");
                s.append(region_to_string(*r).as_str());
                s
            },
            GuestError::PtrOverflow => String::from_str("Pointer overflow"),
            GuestError::PtrBorrowed(r) => String::from_str("Pointer already borrowed: ").concat(
                region_to_string(*r).as_str(),
            ),
            GuestError::InFunc { funcname, location, err } => {
                let mut s = String::from_str("In func ");
                s.append(funcname.as_str());
                s.append(":");
                s.append(location.as_str());
                s.append(":");
                s
            },
            GuestError::InDataField { typename, field, err } => {
                let mut s = String::from_str("In data ");
                s.append(typename.as_str());
                s.append(".");
                s.append(field.as_str());
                s.append(":");
                s
            },
            GuestError::InvalidUtf8 => String::from_str("Invalid UTF-8 encountered"),
        }
    }

    /// The failure that this one wraps, if it wraps one.
    pub open spec fn source_spec(&self) -> Option<GuestError> {
        match self {
            GuestError::InFunc { funcname, location, err } => Some(**err),
            GuestError::InDataField { typename, field, err } => Some(**err),
            _ => None,
        }
    }

    /// Returns the failure that this one wraps, if it wraps one.
    pub fn source(&self) -> (r: Option<&GuestError>)
        ensures
            match r {
                Some(e) => self.source_spec() == Some(*e),
                None => self.source_spec() is None,
            },
    {
        match self {
            GuestError::InFunc { funcname, location, err } => Some(&**err),
            GuestError::InDataField { typename, field, err } => Some(&**err),
            _ => None,
        }
    }
}

} // verus!
