//! The two failure kinds every operation reports, and decimal rendering
//! used in their messages.
use vstd::prelude::*;
use crate::fingerprint::hex_char;

verus! {

/// A failed invocation: bad arguments, or a precondition on the live state or
/// an I/O call that failed.
#[derive(Debug)]
pub enum ToolError {
    InvalidParameters(String),
    ExecutionFailed(String),
}

impl ToolError {
    /// The descriptive message carried by either kind.
    pub fn detail(&self) -> (r: &String)
        ensures
            r@ == (match self {
                ToolError::InvalidParameters(d) => d@,
                ToolError::ExecutionFailed(d) => d@,
            }),
    {
        match self {
            ToolError::InvalidParameters(d) => d,
            ToolError::ExecutionFailed(d) => d,
        }
    }

    /// Whether this is an argument error.
    pub fn is_invalid_parameters(&self) -> (r: bool)
        ensures
            r == (self is InvalidParameters),
    {
        match self {
            ToolError::InvalidParameters(_) => true,
            ToolError::ExecutionFailed(_) => false,
        }
    }
}

/// Decimal digits of `n`, with no leading zeros (`"0"` for zero).
pub open spec fn decimal(n: nat) -> Seq<char>
    decreases n,
{
    if n < 10 {
        seq![hex_char(n)]
    } else {
        decimal(n / 10).push(hex_char(n % 10))
    }
}

/// Renders `n` in decimal.
pub fn render_decimal(n: u64) -> (r: String)
    ensures
        r@ == decimal(n as nat),
    decreases n,
{
    if n < 10 {
        let mut r = String::new();
        r.append(crate::fingerprint::hex_digit_str(n as u32));
        assert(r@ =~= decimal(n as nat));
        r
    } else {
        let mut r = render_decimal(n / 10);
        r.append(crate::fingerprint::hex_digit_str((n % 10) as u32));
        assert(r@ =~= decimal(n as nat));
        r
    }
}

} // verus!
