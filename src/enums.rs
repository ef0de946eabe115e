use vstd::prelude::*;
use vstd::string::*;

verus! {

/// The character of the decimal digit `d`.
pub open spec fn digit_char(d: nat) -> char {
    ((d + 48) as u8) as char
}

/// The decimal digits of `n`, most significant first, without leading zeros.
pub open spec fn decimal(n: nat) -> Seq<char>
    decreases n,
{
    if n < 10 {
        seq![digit_char(n)]
    } else {
        decimal(n / 10).push(digit_char(n % 10))
    }
}

/// Relies on std's `ToString` for `u8`, which writes the decimal digits.
#[verifier::external_body]
fn u8_to_decimal(n: u8) -> (r: String)
    ensures
        r@ == decimal(n as nat),
{
    n.to_string()
}

/// Whether a record is in use.
#[derive(Debug, Clone, Copy, PartialEq, Eq, Structural)]
pub enum Status {
    Normal,
    Deleted,
}

/// The message for a number that stands for no status.
pub open spec fn unknown_status_message(n: u8) -> Seq<char> {
    "Unknown kind: "@ + decimal(n as nat)
}

impl Status {
    /// Decodes a stored status: 0 is `Normal`, 1 is `Deleted`.
    pub fn from_num(n: u8) -> (r: Result<Status, String>)
        ensures
            n == 0 ==> r == Ok::<Status, String>(Status::Normal),
            n == 1 ==> r == Ok::<Status, String>(Status::Deleted),
            n > 1 ==> (r matches Err(m) && m@ == unknown_status_message(n)),
    {
        match n {
            0 => Ok(Status::Normal),
            1 => Ok(Status::Deleted),
            _ => {
                let digits = u8_to_decimal(n);
                let message = String::from_str("Unknown kind: ").concat(digits.as_str());
                Err(message)
            },
        }
    }
}

} // verus!
