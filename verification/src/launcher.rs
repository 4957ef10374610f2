//! Launch configuration for the patched driver binary: the randomly chosen
//! local port, the exact argument string handed to the subprocess, the
//! command name, and the POSIX permission mode set before execution.

use vstd::prelude::*;

verus! {

/// Lowest port the launcher may choose.
pub const PORT_MIN: u16 = 2000;

/// Highest port the launcher may choose.
pub const PORT_MAX: u16 = 4999;

/// POSIX permission bits set on the binary before execution: read and execute
/// for everyone, write for the owner.
pub const POSIX_EXEC_MODE: u32 = 0o755;

/// The decimal digit `d` as a character.
pub open spec fn dec_digit_char(d: int) -> char {
    if d == 0 {
        '0'
    } else if d == 1 {
        '1'
    } else if d == 2 {
        '2'
    } else if d == 3 {
        '3'
    } else if d == 4 {
        '4'
    } else if d == 5 {
        '5'
    } else if d == 6 {
        '6'
    } else if d == 7 {
        '7'
    } else if d == 8 {
        '8'
    } else {
        '9'
    }
}

/// The decimal rendering of `n`, without leading zeros.
pub open spec fn dec_chars(n: int) -> Seq<char>
    decreases n,
{
    if n < 10 {
        seq![dec_digit_char(n)]
    } else {
        dec_chars(n / 10) + seq![dec_digit_char(n % 10)]
    }
}

/// Choose the local port the driver will listen on: random within the fixed
/// range, to keep concurrently running instances unlikely to collide. No
/// collision check happens here; a collision surfaces as failed connection
/// attempts and is absorbed by the connection retry budget.
pub fn choose_port() -> (p: u16)
    ensures
        PORT_MIN <= p <= PORT_MAX,
{
    let r = crate::rng::random_in_range(PORT_MIN as u64, PORT_MAX as u64 + 1);
    r as u16
}

/// The single decimal digit `d` as a string slice.
fn digit_str(d: u16) -> (r: &'static str)
    requires
        d < 10,
    ensures
        r@ == seq![dec_digit_char(d as int)],
{
    proof {
        reveal_strlit("0");
        reveal_strlit("1");
        reveal_strlit("2");
        reveal_strlit("3");
        reveal_strlit("4");
        reveal_strlit("5");
        reveal_strlit("6");
        reveal_strlit("7");
        reveal_strlit("8");
        reveal_strlit("9");
    }
    let r = if d == 0 {
        "0"
    } else if d == 1 {
        "1"
    } else if d == 2 {
        "2"
    } else if d == 3 {
        "3"
    } else if d == 4 {
        "4"
    } else if d == 5 {
        "5"
    } else if d == 6 {
        "6"
    } else if d == 7 {
        "7"
    } else if d == 8 {
        "8"
    } else {
        "9"
    };
    proof {
        assert(r@ =~= seq![dec_digit_char(d as int)]);
    }
    r
}

/// The decimal rendering of `n`.
pub fn decimal_string(n: u16) -> (r: String)
    ensures
        r@ == dec_chars(n as int),
    decreases n,
{
    if n < 10 {
        String::from_str(digit_str(n))
    } else {
        let rest = decimal_string(n / 10);
        let r = rest.concat(digit_str(n % 10));
        proof {
            assert(r@ =~= dec_chars(n as int));
        }
        r
    }
}

/// The exact argument string handed to the driver subprocess for `port`.
pub fn port_arg(port: u16) -> (r: String)
    ensures
        r@ == "--port="@ + dec_chars(port as int),
{
    let digits = decimal_string(port);
    String::from_str("--port=").concat(digits.as_str())
}

/// The command name under which the patched binary in the working directory
/// is invoked.
pub fn launch_command(patched_name: &str) -> (r: String)
    ensures
        r@ == "./"@ + patched_name@,
{
    String::from_str("./").concat(patched_name)
}

} // verus!
