//! Decimal rendering and the uptime payload text the publisher sends.

use vstd::prelude::*;

verus! {

/// The decimal digit character for one digit value.
pub open spec fn dec_digit(d: int) -> char
    recommends
        0 <= d < 10,
{
    if d == 0 {
        '0'
    } else if d == 1 {
        '1'
    } else if d == 2 {
        '2'
    } else if d == 3 {
        '3'
    } else if d == 4 {
        '4'
    } else if d == 5 {
        '5'
    } else if d == 6 {
        '6'
    } else if d == 7 {
        '7'
    } else if d == 8 {
        '8'
    } else {
        '9'
    }
}

/// The usual decimal rendering of a non-negative integer, most significant
/// digit first and without leading zeros (except for zero itself).
pub open spec fn dec_str(n: int) -> Seq<char>
    recommends
        n >= 0,
    decreases n,
{
    if n < 10 {
        seq![dec_digit(n)]
    } else {
        dec_str(n / 10).push(dec_digit(n % 10))
    }
}

/// The one-character string for one digit value.
fn digit_str(d: u64) -> (r: &'static str)
    requires
        d < 10,
    ensures
        r@ == seq![dec_digit(d as int)],
{
    proof {
        reveal_strlit("0");
        reveal_strlit("1");
        reveal_strlit("2");
        reveal_strlit("3");
        reveal_strlit("4");
        reveal_strlit("5");
        reveal_strlit("6");
        reveal_strlit("7");
        reveal_strlit("8");
        reveal_strlit("9");
    }
    let r = match d {
        0 => "0",
        1 => "1",
        2 => "2",
        3 => "3",
        4 => "4",
        5 => "5",
        6 => "6",
        7 => "7",
        8 => "8",
        _ => "9",
    };
    proof {
        assert(r@ =~= seq![dec_digit(d as int)]);
    }
    r
}

/// Render an integer in decimal.
pub fn u64_to_dec(n: u64) -> (r: String)
    ensures
        r@ == dec_str(n as int),
    decreases n,
{
    if n < 10 {
        String::from_str(digit_str(n))
    } else {
        let mut s = u64_to_dec(n / 10);
        s.append(digit_str(n % 10));
        proof {
            assert(s@ =~= dec_str(n as int));
        }
        s
    }
}

/// The text the publisher sends on each tick: the node identifier and the
/// elapsed whole seconds since the publisher started.
pub open spec fn uptime_message(node_id: Seq<char>, elapsed_secs: int) -> Seq<char> {
    "Uptime for node "@ + node_id + ": "@ + dec_str(elapsed_secs)
}

/// Build the payload text for one publish tick.
pub fn uptime_payload(node_id: &str, elapsed_secs: u64) -> (r: String)
    ensures
        r@ == uptime_message(node_id@, elapsed_secs as int),
{
    let mut s = String::from_str("Uptime for node ");
    s.append(node_id);
    s.append(": ");
    let num = u64_to_dec(elapsed_secs);
    s.append(num.as_str());
    proof {
        assert(s@ =~= uptime_message(node_id@, elapsed_secs as int));
    }
    s
}

} // verus!
