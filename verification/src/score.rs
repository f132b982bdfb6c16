//! The score display: rendering the scoreboard as the decimal digit string
//! the status bar shows.

use vstd::prelude::*;

verus! {

/// The decimal digits of a number, most significant first, as ASCII bytes.
pub open spec fn spec_score_digits(n: nat) -> Seq<u8>
    decreases n,
{
    if n < 10 {
        seq![(48 + n) as u8]
    } else {
        spec_score_digits(n / 10).push((48 + n % 10) as u8)
    }
}

/// Render a score as its decimal ASCII digit string.
pub fn score_digits(n: u64) -> (v: Vec<u8>)
    ensures
        v@ == spec_score_digits(n as nat),
    decreases n,
{
    if n < 10 {
        let mut v: Vec<u8> = Vec::new();
        v.push(48 + (n as u8));
        proof {
            assert(v@ =~= spec_score_digits(n as nat));
        }
        v
    } else {
        let mut v = score_digits(n / 10);
        v.push(48 + ((n % 10) as u8));
        proof {
            assert(v@ =~= spec_score_digits(n as nat));
        }
        v
    }
}

/// The display law: the rendered text is a pure function of the score, so an
/// unchanged score renders to the same string, tick after tick.
pub proof fn lemma_score_display_deterministic(a: u64, b: u64)
    requires
        a == b,
    ensures
        spec_score_digits(a as nat) == spec_score_digits(b as nat),
{
}

} // verus!
