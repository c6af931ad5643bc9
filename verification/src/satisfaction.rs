//! The rating commands: a number out of ten, drawn at random, and the line
//! that reports it.

use crate::text::{decimal, decimal_string};
use vstd::prelude::*;
use vstd::string::*;

verus! {

/// Draws a whole number with `rand::Rng::gen_range` from the generator that
/// `rand::thread_rng` hands out. The number is random; every outcome lies
/// in the range `low..high`. An empty range is left out: `gen_range` panics
/// on it.
#[verifier::external_body]
fn random_in(low: i32, high: i32) -> (n: i32)
    requires
        low < high,
    ensures
        low <= n < high,
{
    rand::Rng::gen_range(&mut rand::thread_rng(), low..high)
}

/// A rating from -1 to 10.
pub fn out_of_ten() -> (n: i32)
    ensures
        -1 <= n <= 10,
{
    random_in(-1, 11)
}

/// A whole number in decimal, with a minus sign where it is negative.
pub open spec fn signed_decimal(n: int) -> Seq<char> {
    if n < 0 {
        "-"@ + decimal((-n) as nat)
    } else {
        decimal(n as nat)
    }
}

/// Writes a whole number in decimal.
pub fn signed_decimal_string(n: i32) -> (s: String)
    ensures
        s@ == signed_decimal(n as int),
{
    if n < 0 {
        let mut s = String::from_str("-");
        s.append(decimal_string((0 - (n as i64)) as u64).as_str());
        s
    } else {
        decimal_string(n as u64)
    }
}

/// The line that reports a satisfaction level.
pub open spec fn satisfaction_line(level: i32) -> Seq<char> {
    "Your satisfaction level is: **"@ + signed_decimal(level as int) + "/10**"@
}

/// The line that reports the rating of the day.
pub open spec fn briten_line(level: i32) -> Seq<char> {
    "Today's briten rating is: **"@ + signed_decimal(level as int) + "/10**"@
}

/// Writes the line that reports a satisfaction level.
pub fn satisfaction_text(level: i32) -> (s: String)
    ensures
        s@ == satisfaction_line(level),
{
    let mut s = String::from_str("Your satisfaction level is: **");
    s.append(signed_decimal_string(level).as_str());
    s.append("/10**");
    s
}

/// Writes the line that reports the rating of the day.
pub fn briten_text(level: i32) -> (s: String)
    ensures
        s@ == briten_line(level),
{
    let mut s = String::from_str("Today's briten rating is: **");
    s.append(signed_decimal_string(level).as_str());
    s.append("/10**");
    s
}

} // verus!
