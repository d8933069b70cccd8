use vstd::prelude::*;

verus! {

/// The character of a decimal digit.
pub open spec fn digit_char(d: nat) -> char {
    if d == 0 { '0' }
    else if d == 1 { '1' }
    else if d == 2 { '2' }
    else if d == 3 { '3' }
    else if d == 4 { '4' }
    else if d == 5 { '5' }
    else if d == 6 { '6' }
    else if d == 7 { '7' }
    else if d == 8 { '8' }
    else { '9' }
}

/// `n` written in decimal, without leading zeros.
pub open spec fn decimal(n: nat) -> Seq<char>
    decreases n,
{
    if n < 10 {
        seq![digit_char(n)]
    } else {
        decimal(n / 10).push(digit_char(n % 10))
    }
}

/// Relies on `format!("{}{}", ..)` of std: a string slice is written as it
/// is, and a `u64` in decimal, without sign or leading zeros.
#[verifier::external_body]
fn labelled(prefix: &str, n: u64) -> (r: String)
    ensures
        r@ == prefix@ + decimal(n as nat),
{
    format!("{}{}", prefix, n)
}

pub open spec fn score_line(n: u64) -> Seq<char> {
    "Score: "@ + decimal(n as nat)
}

pub open spec fn high_score_line(n: u64) -> Seq<char> {
    "High Score: "@ + decimal(n as nat)
}

pub open spec fn health_line(n: u64) -> Seq<char> {
    "Health: "@ + decimal(n as nat)
}

/// The text of the score label.
pub fn score_text(n: u64) -> (r: String)
    ensures
        r@ == score_line(n),
{
    labelled("Score: ", n)
}

/// The text of the high-score label.
pub fn high_score_text(n: u64) -> (r: String)
    ensures
        r@ == high_score_line(n),
{
    labelled("High Score: ", n)
}

/// The text of the health label.
pub fn health_text(n: u64) -> (r: String)
    ensures
        r@ == health_line(n),
{
    labelled("Health: ", n)
}

} // verus!
