use vstd::prelude::*;

use vstd::string::StringExecFns;

use crate::scene::error::SceneError;

verus! {

/// The digit character for one decimal digit value.
pub open spec fn digit_char(d: nat) -> char {
    if d == 0 {
        '0'
    } else if d == 1 {
        '1'
    } else if d == 2 {
        '2'
    } else if d == 3 {
        '3'
    } else if d == 4 {
        '4'
    } else if d == 5 {
        '5'
    } else if d == 6 {
        '6'
    } else if d == 7 {
        '7'
    } else if d == 8 {
        '8'
    } else {
        '9'
    }
}

/// The decimal rendering of `n`, most significant digit first, without
/// leading zeros (a single digit for values below ten).
pub open spec fn spec_decimal(n: nat) -> Seq<char>
    decreases n,
{
    if n < 10 {
        seq![digit_char(n)]
    } else {
        spec_decimal(n / 10) + seq![digit_char(n % 10)]
    }
}

fn digit_str(d: u64) -> (r: &'static str)
    requires
        d < 10,
    ensures
        r@ == seq![digit_char(d as nat)],
{
    if d == 0 {
        proof {
            reveal_strlit("0");
            assert("0"@ =~= seq![digit_char(d as nat)]);
        }
        "0"
    } else if d == 1 {
        proof {
            reveal_strlit("1");
            assert("1"@ =~= seq![digit_char(d as nat)]);
        }
        "1"
    } else if d == 2 {
        proof {
            reveal_strlit("2");
            assert("2"@ =~= seq![digit_char(d as nat)]);
        }
        "2"
    } else if d == 3 {
        proof {
            reveal_strlit("3");
            assert("3"@ =~= seq![digit_char(d as nat)]);
        }
        "3"
    } else if d == 4 {
        proof {
            reveal_strlit("4");
            assert("4"@ =~= seq![digit_char(d as nat)]);
        }
        "4"
    } else if d == 5 {
        proof {
            reveal_strlit("5");
            assert("5"@ =~= seq![digit_char(d as nat)]);
        }
        "5"
    } else if d == 6 {
        proof {
            reveal_strlit("6");
            assert("6"@ =~= seq![digit_char(d as nat)]);
        }
        "6"
    } else if d == 7 {
        proof {
            reveal_strlit("7");
            assert("7"@ =~= seq![digit_char(d as nat)]);
        }
        "7"
    } else if d == 8 {
        proof {
            reveal_strlit("8");
            assert("8"@ =~= seq![digit_char(d as nat)]);
        }
        "8"
    } else {
        proof {
            reveal_strlit("9");
            assert("9"@ =~= seq![digit_char(d as nat)]);
        }
        "9"
    }
}

/// Renders `n` in decimal, for messages that name an entity identifier.
pub fn u64_to_decimal(n: u64) -> (r: String)
    ensures
        r@ == spec_decimal(n as nat),
    decreases n,
{
    if n < 10 {
        String::from_str(digit_str(n))
    } else {
        let prefix = u64_to_decimal(n / 10);
        let last = digit_str(n % 10);
        prefix.concat(last)
    }
}

/// The transport status for each domain error: 404 for an unknown entity,
/// 400 for a missing resource or invalid state, 500 for I/O and backend
/// failures.
pub open spec fn status_of(e: SceneError) -> u16 {
    match e {
        SceneError::UnknownEntity(_) => 404,
        SceneError::ResourceMissing(_) => 400,
        SceneError::InvalidState(_) => 400,
        SceneError::Io(_) => 500,
        SceneError::Backend(_) => 500,
    }
}

/// The stable machine-readable code for each domain error.
pub open spec fn code_of(e: SceneError) -> Seq<char> {
    match e {
        SceneError::UnknownEntity(_) => "UnknownEntity"@,
        SceneError::ResourceMissing(_) => "ResourceMissing"@,
        SceneError::InvalidState(_) => "InvalidState"@,
        SceneError::Io(_) => "Io"@,
        SceneError::Backend(_) => "Backend"@,
    }
}

/// The human-readable message for each domain error.
pub open spec fn message_of(e: SceneError) -> Seq<char> {
    match e {
        SceneError::UnknownEntity(id) => "unknown entity "@ + spec_decimal(id as nat),
        SceneError::ResourceMissing(m) => m@,
        SceneError::InvalidState(m) => m@,
        SceneError::Io(m) => m@,
        SceneError::Backend(m) => m@,
    }
}

/// Structured error body: a stable machine-readable code and a
/// human-readable message.
#[derive(Debug)]
pub struct ErrorBody {
    pub code: String,
    pub message: String,
}

/// A transport response for a failed command: the mapped status code and the
/// structured body. No failure is silently swallowed: every domain error has
/// exactly one status, code and message.
#[derive(Debug)]
pub struct ApiError {
    pub status: u16,
    pub body: ErrorBody,
}

impl ApiError {
    /// Maps a domain error to its transport status, stable code and message.
    pub fn from_error(e: &SceneError) -> (r: ApiError)
        ensures
            r.status == status_of(*e),
            r.body.code@ == code_of(*e),
            r.body.message@ == message_of(*e),
    {
        match e {
            SceneError::UnknownEntity(id) => ApiError {
                status: 404,
                body: ErrorBody {
                    code: String::from_str("UnknownEntity"),
                    message: String::from_str("unknown entity ").concat(
                        u64_to_decimal(*id).as_str(),
                    ),
                },
            },
            SceneError::ResourceMissing(m) => ApiError {
                status: 400,
                body: ErrorBody {
                    code: String::from_str("ResourceMissing"),
                    message: String::from_str(*m),
                },
            },
            SceneError::InvalidState(m) => ApiError {
                status: 400,
                body: ErrorBody {
                    code: String::from_str("InvalidState"),
                    message: String::from_str(*m),
                },
            },
            SceneError::Io(m) => ApiError {
                status: 500,
                body: ErrorBody { code: String::from_str("Io"), message: m.clone() },
            },
            SceneError::Backend(m) => ApiError {
                status: 500,
                body: ErrorBody { code: String::from_str("Backend"), message: String::from_str(*m) },
            },
        }
    }
}

} // verus!
