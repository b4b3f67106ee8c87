//! Counting votes: adding votes, quorum and the vote threshold.
//!
//! A support of 0 is against, 1 is for and 2 is abstain. The counting type flags
//! which votes count towards quorum, as the bits `{against}{for}{abstain}`.
use vstd::prelude::*;

use crate::errors::GovernorError;
use crate::types::{VoteCount, BPS_SCALAR};

verus! {

/// The absolute value of `a`.
pub open spec fn abs(a: int) -> int {
    if a >= 0 {
        a
    } else {
        -a
    }
}

/// Division rounding towards zero, as integer division in Rust does.
pub open spec fn div_trunc(a: int, b: int) -> int {
    if (a >= 0) == (b > 0) || a == 0 {
        abs(a) / abs(b)
    } else {
        -(abs(a) / abs(b))
    }
}

/// The votes that count towards quorum for a counting type.
pub open spec fn quorum_votes(c: VoteCount, counting_type: u32) -> int {
    (if counting_type & 0b100u32 != 0 {
        c.against as int
    } else {
        0
    }) + (if counting_type & 0b010u32 != 0 {
        c._for as int
    } else {
        0
    }) + (if counting_type & 0b001u32 != 0 {
        c.abstain as int
    } else {
        0
    })
}

/// Counting the votes towards quorum stays within `i128`.
pub open spec fn quorum_votes_fit(c: VoteCount, counting_type: u32) -> bool {
    let a = if counting_type & 0b100u32 != 0 {
        c.against as int
    } else {
        0
    };
    let f = if counting_type & 0b010u32 != 0 {
        c._for as int
    } else {
        0
    };
    i128::MIN <= a + f <= i128::MAX && i128::MIN <= quorum_votes(c, counting_type) <= i128::MAX
}

/// The number of votes needed to be strictly exceeded for quorum: `quorum` basis
/// points of `total_votes`, rounded towards zero.
pub open spec fn quorum_requirement(quorum: u32, total_votes: int) -> int {
    div_trunc(total_votes * quorum, BPS_SCALAR as int)
}

/// Whether the votes reach quorum.
pub open spec fn over_quorum(c: VoteCount, quorum: u32, counting_type: u32, total_votes: int) -> bool {
    quorum_votes(c, counting_type) > quorum_requirement(quorum, total_votes)
}

/// The share of "for" votes among "for" and "against", in basis points rounded
/// towards zero; zero when there are none.
pub open spec fn for_share(c: VoteCount) -> int {
    if c.against + c._for == 0 {
        0
    } else {
        div_trunc(c._for * BPS_SCALAR, c.against + c._for)
    }
}

/// Whether the votes pass the threshold: some "for" or "against" votes were
/// cast, and the share of "for" votes strictly exceeds `vote_threshold`.
pub open spec fn over_threshold(c: VoteCount, vote_threshold: u32) -> bool {
    c.against + c._for != 0 && for_share(c) > vote_threshold
}

impl VoteCount {
    /// No vote count holds a negative number of votes.
    pub open spec fn wf(&self) -> bool {
        self.against >= 0 && self._for >= 0 && self.abstain >= 0
    }

    /// A vote count where all vote types have zero votes.
    pub fn new() -> (r: Self)
        ensures
            r.against == 0 && r._for == 0 && r.abstain == 0,
    {
        VoteCount { against: 0, _for: 0, abstain: 0 }
    }

    /// Adds `amount` votes of the type `support` (0 against, 1 for, 2 abstain).
    /// Fails with `InvalidProposalSupportError` for any other support.
    pub fn add_vote(&mut self, support: u32, amount: i128) -> (r: Result<(), GovernorError>)
        requires
            support == 0 ==> i128::MIN <= old(self).against + amount <= i128::MAX,
            support == 1 ==> i128::MIN <= old(self)._for + amount <= i128::MAX,
            support == 2 ==> i128::MIN <= old(self).abstain + amount <= i128::MAX,
        ensures
            support > 2 ==> r == Err::<(), GovernorError>(GovernorError::InvalidProposalSupportError)
                && *final(self) == *old(self),
            support <= 2 ==> r is Ok,
            support == 0 ==> *final(self) == (VoteCount { against: (old(self).against + amount) as i128, ..*old(self) }),
            support == 1 ==> *final(self) == (VoteCount { _for: (old(self)._for + amount) as i128, ..*old(self) }),
            support == 2 ==> *final(self) == (VoteCount { abstain: (old(self).abstain + amount) as i128, ..*old(self) }),
    {
        match support {
            0 => {
                self.against = self.against + amount;
            },
            1 => {
                self._for = self._for + amount;
            },
            2 => {
                self.abstain = self.abstain + amount;
            },
            _ => {
                return Err(GovernorError::InvalidProposalSupportError);
            },
        }
        Ok(())
    }

    /// Whether the votes reach quorum: the votes counted by `counting_type` strictly
    /// exceed `quorum` basis points of `total_votes`.
    pub fn is_over_quorum(&self, quorum: u32, counting_type: u32, total_votes: i128) -> (r: bool)
        requires
            quorum_votes_fit(*self, counting_type),
            i128::MIN <= total_votes * quorum <= i128::MAX,
        ensures
            r == over_quorum(*self, quorum, counting_type, total_votes as int),
    {
        let quorum_votes = self.count_quorum(counting_type);
        let quorum_requirement_floor = (total_votes * quorum as i128) / BPS_SCALAR;
        quorum_votes > quorum_requirement_floor
    }

    /// Whether the votes pass the threshold: the share of "for" votes among "for"
    /// and "against" strictly exceeds `vote_threshold` basis points.
    pub fn is_over_threshold(&self, vote_threshold: u32) -> (r: bool)
        requires
            i128::MIN <= self.against + self._for <= i128::MAX,
            self.against + self._for != 0 ==> i128::MIN <= self._for * BPS_SCALAR <= i128::MAX,
        ensures
            r == over_threshold(*self, vote_threshold),
    {
        let against_and_for_votes = self.against + self._for;
        if against_and_for_votes == 0 {
            return false;
        }
        // a multiple of 10^4 is never -2^127, so the division cannot overflow
        assert(self._for * BPS_SCALAR != i128::MIN) by {
            let p = self._for * BPS_SCALAR;
            assert(p % 10_000 == 0) by {
                vstd::arithmetic::div_mod::lemma_mod_multiples_basic(self._for as int, 10_000);
            }
        }
        // integer division rounding towards zero, for either sign of the operands
        match (self._for * BPS_SCALAR).checked_div(against_and_for_votes) {
            Some(for_votes) => for_votes > vote_threshold as i128,
            // never reached: the divisor is not zero and the quotient fits
            None => false,
        }
    }

    /// The number of votes that count towards quorum for `counting_type`.
    pub fn count_quorum(&self, counting_type: u32) -> (r: i128)
        requires
            quorum_votes_fit(*self, counting_type),
        ensures
            r == quorum_votes(*self, counting_type),
    {
        let mut quorum_votes: i128 = 0;
        if counting_type & 0b100 != 0 {
            quorum_votes = quorum_votes + self.against;
        }
        if counting_type & 0b010 != 0 {
            quorum_votes = quorum_votes + self._for;
        }
        if counting_type & 0b001 != 0 {
            quorum_votes = quorum_votes + self.abstain;
        }
        quorum_votes
    }
}

/// More votes never lose quorum: a count with at least as many votes of each type
/// reaches quorum whenever the smaller one does.
pub proof fn lemma_quorum_monotonic(
    smaller: VoteCount,
    larger: VoteCount,
    quorum: u32,
    counting_type: u32,
    total_votes: int,
)
    requires
        smaller.against <= larger.against,
        smaller._for <= larger._for,
        smaller.abstain <= larger.abstain,
    ensures
        over_quorum(smaller, quorum, counting_type, total_votes) ==> over_quorum(
            larger,
            quorum,
            counting_type,
            total_votes,
        ),
{
}

/// Floor division by a positive divisor keeps the order of fractions.
proof fn lemma_div_fraction_order(x1: int, y1: int, x2: int, y2: int)
    requires
        x1 >= 0,
        y1 > 0,
        y2 > 0,
        x1 * y2 <= x2 * y1,
    ensures
        x1 / y1 <= x2 / y2,
{
    let q = x1 / y1;
    vstd::arithmetic::div_mod::lemma_fundamental_div_mod(x1, y1);
    vstd::arithmetic::div_mod::lemma_mod_pos_bound(x1, y1);
    assert(q * y1 <= x1);
    assert(q * y1 * y2 <= x1 * y2) by (nonlinear_arith)
        requires
            q * y1 <= x1,
            y2 > 0,
    ;
    assert(q * y2 * y1 <= x2 * y1) by (nonlinear_arith)
        requires
            q * y1 * y2 <= x1 * y2,
            x1 * y2 <= x2 * y1,
    ;
    assert(q * y2 <= x2) by (nonlinear_arith)
        requires
            q * y2 * y1 <= x2 * y1,
            y1 > 0,
    ;
    vstd::arithmetic::div_mod::lemma_div_is_ordered(q * y2, x2, y2);
    vstd::arithmetic::div_mod::lemma_div_multiples_vanish(q, y2);
    assert(q * y2 == y2 * q) by (nonlinear_arith);
}

/// More "for" votes, or fewer "against" votes, never lose the vote threshold.
pub proof fn lemma_threshold_monotonic(smaller: VoteCount, larger: VoteCount, vote_threshold: u32)
    requires
        smaller.wf(),
        larger.wf(),
        smaller._for <= larger._for,
        larger.against <= smaller.against,
    ensures
        over_threshold(smaller, vote_threshold) ==> over_threshold(larger, vote_threshold),
{
    if over_threshold(smaller, vote_threshold) {
        let f1 = smaller._for as int;
        let a1 = smaller.against as int;
        let f2 = larger._for as int;
        let a2 = larger.against as int;
        let b = BPS_SCALAR as int;
        // a share above the threshold needs some "for" votes
        assert(f1 > 0) by {
            if f1 == 0 {
                assert(f1 * b == 0);
            }
        }
        assert((f1 * b) * (a2 + f2) <= (f2 * b) * (a1 + f1)) by (nonlinear_arith)
            requires
                0 <= f1 <= f2,
                0 <= a2 <= a1,
                b > 0,
        ;
        lemma_div_fraction_order(f1 * b, a1 + f1, f2 * b, a2 + f2);
    }
}

/// The vote threshold without division: a count with no negative votes passes a
/// threshold of `vote_threshold` basis points exactly when some "for" or
/// "against" votes were cast and `for * 10000 >= (vote_threshold + 1) * (against +
/// for)`, that is when the "for" share rounded down is above the threshold. How
/// "for" compares with "against" by itself does not matter.
pub proof fn lemma_threshold_exact(c: VoteCount, vote_threshold: u32)
    requires
        c.wf(),
    ensures
        over_threshold(c, vote_threshold) <==> (c.against + c._for > 0 && c._for * 10_000 >= (
        vote_threshold + 1) * (c.against + c._for)),
{
    let d = c.against + c._for;
    let t = vote_threshold as int;
    if d != 0 {
        let x = c._for * 10_000;
        assert(x >= 0) by (nonlinear_arith)
            requires
                x == c._for * 10_000,
                c._for >= 0,
        ;
        assert(for_share(c) == x / d);
        vstd::arithmetic::div_mod::lemma_fundamental_div_mod(x, d);
        vstd::arithmetic::div_mod::lemma_mod_pos_bound(x, d);
        let q = x / d;
        let m = x % d;
        if q > t {
            assert(x >= (t + 1) * d) by (nonlinear_arith)
                requires
                    x == d * q + m,
                    m >= 0,
                    q >= t + 1,
                    d > 0,
            ;
        } else {
            assert(x < (t + 1) * d) by (nonlinear_arith)
                requires
                    x == d * q + m,
                    m < d,
                    q <= t,
                    d > 0,
            ;
        }
    }
}

} // verus!
