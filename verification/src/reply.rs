//! Mapping a dispatch result to an HTTP-style reply.

use vstd::prelude::*;
use vstd::string::StringExecFns;
use crate::errors::OpError;

verus! {

/// The character for one decimal digit.
pub open spec fn digit_char(d: nat) -> char {
    if d == 0 {
        '0'
    } else if d == 1 {
        '1'
    } else if d == 2 {
        '2'
    } else if d == 3 {
        '3'
    } else if d == 4 {
        '4'
    } else if d == 5 {
        '5'
    } else if d == 6 {
        '6'
    } else if d == 7 {
        '7'
    } else if d == 8 {
        '8'
    } else {
        '9'
    }
}

/// The decimal digits of a number, most significant first, with no
/// leading zeros (a lone zero for zero itself).
pub open spec fn dec_digits(n: nat) -> Seq<char>
    decreases n,
{
    if n < 10 {
        seq![digit_char(n)]
    } else {
        dec_digits(n / 10).push(digit_char(n % 10))
    }
}

fn digit_string(d: u8) -> (s: &'static str)
    requires
        d < 10,
    ensures
        s@ == seq![digit_char(d as nat)],
{
    if d == 0 {
        proof {
            reveal_strlit("0");
            assert("0"@ =~= seq![digit_char(0)]);
        }
        "0"
    } else if d == 1 {
        proof {
            reveal_strlit("1");
            assert("1"@ =~= seq![digit_char(1)]);
        }
        "1"
    } else if d == 2 {
        proof {
            reveal_strlit("2");
            assert("2"@ =~= seq![digit_char(2)]);
        }
        "2"
    } else if d == 3 {
        proof {
            reveal_strlit("3");
            assert("3"@ =~= seq![digit_char(3)]);
        }
        "3"
    } else if d == 4 {
        proof {
            reveal_strlit("4");
            assert("4"@ =~= seq![digit_char(4)]);
        }
        "4"
    } else if d == 5 {
        proof {
            reveal_strlit("5");
            assert("5"@ =~= seq![digit_char(5)]);
        }
        "5"
    } else if d == 6 {
        proof {
            reveal_strlit("6");
            assert("6"@ =~= seq![digit_char(6)]);
        }
        "6"
    } else if d == 7 {
        proof {
            reveal_strlit("7");
            assert("7"@ =~= seq![digit_char(7)]);
        }
        "7"
    } else if d == 8 {
        proof {
            reveal_strlit("8");
            assert("8"@ =~= seq![digit_char(8)]);
        }
        "8"
    } else {
        proof {
            reveal_strlit("9");
            assert("9"@ =~= seq![digit_char(9)]);
        }
        "9"
    }
}

/// The decimal rendering of a byte value.
pub fn u8_to_decimal(v: u8) -> (s: String)
    ensures
        s@ == dec_digits(v as nat),
    decreases v,
{
    if v < 10 {
        digit_string(v).to_owned()
    } else {
        let high = u8_to_decimal(v / 10);
        let s = high.concat(digit_string(v % 10));
        proof {
            assert(s@ =~= dec_digits((v as nat) / 10).push(digit_char((v % 10) as nat)));
        }
        s
    }
}

/// An HTTP-style outcome: a status code and a textual body.
#[derive(PartialEq, Eq, Debug)]
pub struct Reply {
    pub status: u16,
    pub body: String,
}

/// The body reporting a successfully read value.
pub open spec fn success_value_body(v: u8) -> Seq<char> {
    "Success, value: "@ + dec_digits(v as nat)
}

/// Map a dispatch result to its reply: success with no value is a bare
/// acknowledgement, a read value is reported in the body, and a
/// hardware failure becomes a server error carrying the failure's
/// description verbatim.
pub fn as_reply(result: Result<Option<u8>, OpError>) -> (r: Reply)
    ensures
        match result {
            Ok(Some(v)) => r.status == 200 && r.body@ == success_value_body(v),
            Ok(None) => r.status == 200 && r.body@ == "Success"@,
            Err(e) => r.status == 500 && r.body@ == e.message@,
        },
{
    match result {
        Ok(Some(v)) => {
            let digits = u8_to_decimal(v);
            let body = "Success, value: ".to_owned().concat(digits.as_str());
            Reply { status: 200, body }
        },
        Ok(None) => Reply { status: 200, body: "Success".to_owned() },
        Err(e) => Reply { status: 500, body: e.message },
    }
}

} // verus!
