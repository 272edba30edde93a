//! The textual form of a result.

use vstd::prelude::*;
use vstd::string::StringExecFns;
use crate::analyzed::Analyzed;
use crate::scalar::{is_text, Scalar};

verus! {

/// The character of the decimal digit `d`.
pub open spec fn digit(d: nat) -> char {
    if d == 0 {
        '0'
    } else if d == 1 {
        '1'
    } else if d == 2 {
        '2'
    } else if d == 3 {
        '3'
    } else if d == 4 {
        '4'
    } else if d == 5 {
        '5'
    } else if d == 6 {
        '6'
    } else if d == 7 {
        '7'
    } else if d == 8 {
        '8'
    } else {
        '9'
    }
}

/// The decimal digits of `n`, the most significant first, without leading
/// zeros.
pub open spec fn decimal(n: nat) -> Seq<char>
    decreases n,
{
    if n < 10 {
        seq![digit(n)]
    } else {
        decimal(n / 10).push(digit(n % 10))
    }
}

/// The word that says whether the error estimate is reliable.
pub open spec fn status(converged: bool) -> Seq<char> {
    if converged {
        "converged"@
    } else {
        "NOT CONVERGED!!!"@
    }
}

/// The line that shows a result, given the texts of its three numbers.
pub open spec fn rendering(
    mean: Seq<char>,
    error: Seq<char>,
    correlation_time: Seq<char>,
    converged: bool,
    number_of_inputs: u32,
) -> Seq<char> {
    mean + " +- "@ + error + ", tau: "@ + correlation_time + " ......"@ + status(converged)
        + " for "@ + decimal(number_of_inputs as nat) + " entries"@
}

/// `r` is a line that shows `a`: its numbers in the textual form that the
/// number type gives them.
pub open spec fn is_rendering<T: Scalar>(a: Analyzed<T>, r: Seq<char>) -> bool {
    exists|m: Seq<char>, e: Seq<char>, t: Seq<char>|
        is_text(a.mean, m) && is_text(a.error, e) && is_text(a.correlation_time, t) && r
            == #[trigger] rendering(m, e, t, a.converged, a.number_of_inputs)
}

/// The text of one decimal digit.
fn digit_text(d: u32) -> (r: &'static str)
    requires
        d < 10,
    ensures
        r@ == seq![digit(d as nat)],
{
    proof {
        reveal_strlit("0");
        reveal_strlit("1");
        reveal_strlit("2");
        reveal_strlit("3");
        reveal_strlit("4");
        reveal_strlit("5");
        reveal_strlit("6");
        reveal_strlit("7");
        reveal_strlit("8");
        reveal_strlit("9");
    }
    let r = if d == 0 {
        "0"
    } else if d == 1 {
        "1"
    } else if d == 2 {
        "2"
    } else if d == 3 {
        "3"
    } else if d == 4 {
        "4"
    } else if d == 5 {
        "5"
    } else if d == 6 {
        "6"
    } else if d == 7 {
        "7"
    } else if d == 8 {
        "8"
    } else {
        "9"
    };
    assert(r@ =~= seq![digit(d as nat)]);
    r
}

/// The decimal form of `n`.
pub fn decimal_text(n: u32) -> (r: String)
    ensures
        r@ == decimal(n as nat),
    decreases n,
{
    if n < 10 {
        String::from_str(digit_text(n))
    } else {
        let mut r = decimal_text(n / 10);
        r.append(digit_text(n % 10));
        assert(r@ =~= decimal(n as nat));
        r
    }
}

/// The line that shows a result, given the texts of its three numbers.
pub fn compose(
    mean: &str,
    error: &str,
    correlation_time: &str,
    converged: bool,
    number_of_inputs: u32,
) -> (r: String)
    ensures
        r@ == rendering(mean@, error@, correlation_time@, converged, number_of_inputs),
{
    let mut r = String::from_str(mean);
    r.append(" +- ");
    r.append(error);
    r.append(", tau: ");
    r.append(correlation_time);
    r.append(" ......");
    if converged {
        r.append("converged");
    } else {
        r.append("NOT CONVERGED!!!");
    }
    r.append(" for ");
    let count = decimal_text(number_of_inputs);
    r.append(count.as_str());
    r.append(" entries");
    r
}

impl<T: Scalar> Analyzed<T> {
    /// The line that shows this result.
    pub fn render(&self) -> (r: String)
        ensures
            is_rendering(*self, r@),
    {
        let m = self.mean.text();
        let e = self.error.text();
        let t = self.correlation_time.text();
        let r = compose(m.as_str(), e.as_str(), t.as_str(), self.converged, self.number_of_inputs);
        proof {
            assert(is_text(self.mean, m@));
            assert(is_text(self.error, e@));
            assert(is_text(self.correlation_time, t@));
            assert(r@ == rendering(m@, e@, t@, self.converged, self.number_of_inputs));
        }
        r
    }
}

} // verus!
