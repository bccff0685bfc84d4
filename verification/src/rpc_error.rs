use vstd::prelude::*;
use vstd::string::StringExecFns;

verus! {

/// Structured application-level error returned by the remote endpoint when a
/// call completes but the request fails at the endpoint.
#[derive(Clone, Debug)]
pub struct RpcError {
    pub code: i64,
    pub message: String,
}

/// The uniform error channel of the adapter. Every failure a call can run
/// into is surfaced as one of these; nothing is retried or swallowed.
#[derive(Clone, Debug)]
pub enum TransportError {
    /// The packet could not be put into its wire form; no call was made.
    Encoding { message: String },
    /// The call mechanism itself rejected or failed the call, before any
    /// application-level outcome existed; code and message verbatim.
    MechanismRejection { code: i64, message: String },
    /// The call completed and the endpoint returned a structured error; the
    /// code is a fixed sentinel, the message the error's rendered text.
    ApplicationRpc { code: i64, message: String },
    /// The call claimed success but the payload did not parse as a response
    /// envelope; carries the parse error and the raw offending string.
    Decoding { message: String, raw: String },
}

/// The decimal digit d, for d from 0 through 9, as a character.
pub open spec fn spec_digit_char(d: int) -> char {
    if d == 0 {
        '0'
    } else if d == 1 {
        '1'
    } else if d == 2 {
        '2'
    } else if d == 3 {
        '3'
    } else if d == 4 {
        '4'
    } else if d == 5 {
        '5'
    } else if d == 6 {
        '6'
    } else if d == 7 {
        '7'
    } else if d == 8 {
        '8'
    } else {
        '9'
    }
}

/// Decimal digits of n, most significant first, for n at least 0.
pub open spec fn spec_decimal(n: int) -> Seq<char>
    recommends
        0 <= n,
    decreases n,
{
    if n < 10 {
        seq![spec_digit_char(n)]
    } else {
        spec_decimal(n / 10).push(spec_digit_char(n % 10))
    }
}

/// Signed decimal rendering: a leading minus sign for negative values.
pub open spec fn spec_i64_decimal(n: int) -> Seq<char> {
    if n < 0 {
        seq!['-'] + spec_decimal(-n)
    } else {
        spec_decimal(n)
    }
}

/// Rendered text of an application error, as placed into the uniform error's
/// message field.
pub open spec fn spec_rendered_rpc_error(e: RpcError) -> Seq<char> {
    "rpc error (code "@ + spec_i64_decimal(e.code as int) + "): "@ + e.message@
}

fn push_digit(out: &mut String, d: u64)
    requires
        d < 10,
    ensures
        final(out)@ == old(out)@ + seq![spec_digit_char(d as int)],
{
    match d {
        0 => {
            out.append("0");
            proof {
                reveal_strlit("0");
                assert("0"@ =~= seq![spec_digit_char(0)]);
            }
        },
        1 => {
            out.append("1");
            proof {
                reveal_strlit("1");
                assert("1"@ =~= seq![spec_digit_char(1)]);
            }
        },
        2 => {
            out.append("2");
            proof {
                reveal_strlit("2");
                assert("2"@ =~= seq![spec_digit_char(2)]);
            }
        },
        3 => {
            out.append("3");
            proof {
                reveal_strlit("3");
                assert("3"@ =~= seq![spec_digit_char(3)]);
            }
        },
        4 => {
            out.append("4");
            proof {
                reveal_strlit("4");
                assert("4"@ =~= seq![spec_digit_char(4)]);
            }
        },
        5 => {
            out.append("5");
            proof {
                reveal_strlit("5");
                assert("5"@ =~= seq![spec_digit_char(5)]);
            }
        },
        6 => {
            out.append("6");
            proof {
                reveal_strlit("6");
                assert("6"@ =~= seq![spec_digit_char(6)]);
            }
        },
        7 => {
            out.append("7");
            proof {
                reveal_strlit("7");
                assert("7"@ =~= seq![spec_digit_char(7)]);
            }
        },
        8 => {
            out.append("8");
            proof {
                reveal_strlit("8");
                assert("8"@ =~= seq![spec_digit_char(8)]);
            }
        },
        _ => {
            out.append("9");
            proof {
                reveal_strlit("9");
                assert("9"@ =~= seq![spec_digit_char(9)]);
            }
        },
    }
}

fn push_u64_decimal(out: &mut String, n: u64)
    ensures
        final(out)@ == old(out)@ + spec_decimal(n as int),
    decreases n,
{
    if n < 10 {
        push_digit(out, n);
    } else {
        push_u64_decimal(out, n / 10);
        push_digit(out, n % 10);
        proof {
            assert(out@ =~= old(out)@ + spec_decimal(n as int));
        }
    }
}

fn push_i64_decimal(out: &mut String, n: i64)
    ensures
        final(out)@ == old(out)@ + spec_i64_decimal(n as int),
{
    if n < 0 {
        out.append("-");
        let magnitude: u64 = (-(n as i128)) as u64;
        proof {
            assert(magnitude as int == -(n as int));
        }
        push_u64_decimal(out, magnitude);
        proof {
            reveal_strlit("-");
            assert("-"@ =~= seq!['-']);
            assert(out@ =~= old(out)@ + spec_i64_decimal(n as int));
        }
    } else {
        push_u64_decimal(out, n as u64);
    }
}

impl RpcError {
    /// The error's rendered text: its code and message in one line.
    pub fn rendered(&self) -> (s: String)
        ensures
            s@ == spec_rendered_rpc_error(*self),
    {
        let mut out = String::from_str("rpc error (code ");
        push_i64_decimal(&mut out, self.code);
        out.append("): ");
        out.append(self.message.as_str());
        proof {
            assert(out@ =~= spec_rendered_rpc_error(*self));
        }
        out
    }
}

} // verus!
