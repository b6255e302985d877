//! Names of the store keys that hold the live table and the history logs.
use vstd::prelude::*;
use vstd::string::*;
use crate::entry::ProducerId;

verus! {

/// The hash that maps each live pod name to its producer identifier.
pub const IDS_KEY: &'static str = "producerid-service::ids";

/// Prefix of the list keys that hold one pod's history.
pub const POD_HISTORY_PREFIX: &'static str = "producerid-service::history_per_pod::";

/// Prefix of the list keys that hold one producer identifier's history.
pub const PRODUCER_HISTORY_PREFIX: &'static str = "producerid-service::history_per_producer::";

/// The character of a decimal digit.
pub open spec fn digit_char(d: nat) -> char {
    if d == 0 {
        '0'
    } else if d == 1 {
        '1'
    } else if d == 2 {
        '2'
    } else if d == 3 {
        '3'
    } else if d == 4 {
        '4'
    } else if d == 5 {
        '5'
    } else if d == 6 {
        '6'
    } else if d == 7 {
        '7'
    } else if d == 8 {
        '8'
    } else {
        '9'
    }
}

/// The decimal notation of `n`, without leading zeros.
pub open spec fn decimal_of(n: nat) -> Seq<char>
    decreases n,
{
    if n < 10 {
        seq![digit_char(n)]
    } else {
        decimal_of(n / 10) + seq![digit_char(n % 10)]
    }
}

/// The key of the history list of the pod named `name`.
pub open spec fn pod_key_of(name: Seq<char>) -> Seq<char> {
    POD_HISTORY_PREFIX@ + name
}

/// The key of the history list of the identifier `id`.
pub open spec fn producer_key_of(id: ProducerId) -> Seq<char> {
    PRODUCER_HISTORY_PREFIX@ + decimal_of(id as nat)
}

fn digit_str(d: u16) -> (r: &'static str)
    requires
        d < 10,
    ensures
        r@ == seq![digit_char(d as nat)],
{
    proof {
        reveal_strlit("0");
        reveal_strlit("1");
        reveal_strlit("2");
        reveal_strlit("3");
        reveal_strlit("4");
        reveal_strlit("5");
        reveal_strlit("6");
        reveal_strlit("7");
        reveal_strlit("8");
        reveal_strlit("9");
    }
    if d == 0 {
        "0"
    } else if d == 1 {
        "1"
    } else if d == 2 {
        "2"
    } else if d == 3 {
        "3"
    } else if d == 4 {
        "4"
    } else if d == 5 {
        "5"
    } else if d == 6 {
        "6"
    } else if d == 7 {
        "7"
    } else if d == 8 {
        "8"
    } else {
        "9"
    }
}

/// The decimal notation of `n`.
pub fn decimal(n: u16) -> (r: String)
    ensures
        r@ == decimal_of(n as nat),
    decreases n,
{
    if n < 10 {
        String::from_str(digit_str(n))
    } else {
        let mut s = decimal(n / 10);
        s.append(digit_str(n % 10));
        s
    }
}

/// The key of the history list of the pod named `name`.
pub fn pod_key(name: &str) -> (r: String)
    ensures
        r@ == pod_key_of(name@),
{
    let mut s = String::from_str(POD_HISTORY_PREFIX);
    s.append(name);
    s
}

/// The key of the history list of the identifier `id`.
pub fn producer_key(id: ProducerId) -> (r: String)
    ensures
        r@ == producer_key_of(id),
{
    let digits = decimal(id);
    let mut s = String::from_str(PRODUCER_HISTORY_PREFIX);
    s.append(digits.as_str());
    s
}

} // verus!
