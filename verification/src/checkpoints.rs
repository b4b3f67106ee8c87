//! Checkpoints: a ledger sequence number and an amount packed into a `u128`, and
//! the pruned histories of checkpoints that keep every amount a vote can ask for.
use vstd::prelude::*;
use vstd::arithmetic::div_mod::{lemma_fundamental_div_mod, lemma_mod_pos_bound};

use crate::errors::TokenVotesError;
use crate::ledger_vec::{
    checkpoint_list, checkpoints_get, checkpoints_len, checkpoints_pop, checkpoints_push,
    checkpoints_search, checkpoints_slice, ledger_list, ledgers_get, ledgers_len, ledgers_search,
    sorted_ledgers, sorted_u128, strictly_sorted_ledgers,
};

verus! {

/// The weight of the sequence number in a packed checkpoint (2^96).
pub open spec fn seq_unit() -> int {
    0x1_0000_0000_0000_0000_0000_0000
}

/// The ledger sequence number of a checkpoint (its top 32 bits).
pub open spec fn seq_of(c: u128) -> int {
    c as int / seq_unit()
}

/// The amount of a checkpoint (its low 96 bits).
pub open spec fn amount_of(c: u128) -> int {
    c as int % seq_unit()
}

/// The checkpoint that records `amount` at `sequence`.
pub open spec fn checkpoint(sequence: u32, amount: int) -> u128 {
    (sequence as int * seq_unit() + amount) as u128
}

/// An amount a checkpoint can hold: a non-negative value below 2^96.
pub open spec fn fits_checkpoint(amount: int) -> bool {
    0 <= amount < seq_unit()
}

/// A history is ordered by strictly increasing sequence numbers.
pub open spec fn history_wf(s: Seq<u128>) -> bool {
    forall|i: int, j: int| 0 <= i < j < s.len() ==> seq_of(s[i]) < seq_of(s[j])
}

/// Every checkpoint of the history was recorded before `sequence`.
pub open spec fn history_before(s: Seq<u128>, sequence: int) -> bool {
    forall|i: int| 0 <= i < s.len() ==> seq_of(s[i]) < sequence
}

/// Every checkpoint of the history was recorded at or before `sequence`.
pub open spec fn history_through(s: Seq<u128>, sequence: int) -> bool {
    forall|i: int| 0 <= i < s.len() ==> seq_of(s[i]) <= sequence
}

/// The amount a history records at `sequence`: the amount of its latest checkpoint
/// recorded at or before `sequence`, or zero when there is none.
pub open spec fn lookup(s: Seq<u128>, sequence: int) -> int
    decreases s.len(),
{
    if s.len() == 0 {
        0
    } else if seq_of(s.last()) <= sequence {
        amount_of(s.last())
    } else {
        lookup(s.drop_last(), sequence)
    }
}

/// The amount in effect at `sequence` for a value whose latest checkpoint is
/// `current` and whose earlier checkpoints are `history`.
pub open spec fn value_at(current: u128, history: Seq<u128>, sequence: int) -> int {
    if seq_of(current) <= sequence {
        amount_of(current)
    } else {
        lookup(history, sequence)
    }
}

/// Splits a packed checkpoint into its sequence number and amount.
pub proof fn lemma_split(c: u128)
    ensures
        c as int == seq_unit() * seq_of(c) + amount_of(c),
        0 <= amount_of(c) < seq_unit(),
        0 <= seq_of(c) <= u32::MAX,
{
    lemma_fundamental_div_mod(c as int, seq_unit());
    lemma_mod_pos_bound(c as int, seq_unit());
}

/// Packing and unpacking are inverse: the packed checkpoint holds exactly the
/// sequence number and the amount it was made from.
pub proof fn lemma_checkpoint_roundtrip(sequence: u32, amount: int)
    requires
        fits_checkpoint(amount),
    ensures
        seq_of(checkpoint(sequence, amount)) == sequence,
        amount_of(checkpoint(sequence, amount)) == amount,
{
    let c = checkpoint(sequence, amount);
    assert(c as int == sequence as int * seq_unit() + amount);
    vstd::arithmetic::div_mod::lemma_fundamental_div_mod_converse(
        c as int,
        seq_unit(),
        sequence as int,
        amount,
    );
}

/// Checkpoints are ordered by their sequence numbers first: a checkpoint recorded
/// at an earlier ledger is smaller than any recorded at a later one.
pub proof fn lemma_checkpoint_order(a: u128, b: u128)
    ensures
        seq_of(a) < seq_of(b) ==> a < b,
        a <= b ==> seq_of(a) <= seq_of(b),
{
    lemma_split(a);
    lemma_split(b);
}

/// A well-formed history is sorted as a list of `u128`.
pub proof fn lemma_history_sorted(s: Seq<u128>)
    requires
        history_wf(s),
    ensures
        sorted_u128(s),
        forall|i: int, j: int| 0 <= i < j < s.len() ==> s[i] < s[j],
{
    assert forall|i: int, j: int| 0 <= i < j < s.len() implies s[i] < s[j] by {
        lemma_checkpoint_order(s[i], s[j]);
    }
}

/// Where the checkpoints before index `i` are recorded at or before `sequence` and
/// the rest after it, the lookup gives the amount of the checkpoint before `i`.
pub proof fn lemma_lookup_split(s: Seq<u128>, sequence: int, i: int)
    requires
        0 <= i <= s.len(),
        forall|j: int| 0 <= j < i ==> seq_of(s[j]) <= sequence,
        forall|j: int| i <= j < s.len() ==> seq_of(s[j]) > sequence,
    ensures
        lookup(s, sequence) == if i == 0 {
            0
        } else {
            amount_of(s[i - 1])
        },
    decreases s.len(),
{
    if s.len() > 0 && i < s.len() {
        lemma_lookup_split(s.drop_last(), sequence, i);
    }
}

/// Appending a checkpoint only changes the lookups at or after its sequence number.
pub proof fn lemma_lookup_push(s: Seq<u128>, x: u128, sequence: int)
    ensures
        lookup(s.push(x), sequence) == if seq_of(x) <= sequence {
            amount_of(x)
        } else {
            lookup(s, sequence)
        },
{
    assert(s.push(x).drop_last() =~= s);
}

/// Dropping the leading checkpoints keeps every lookup at or after the first kept one.
pub proof fn lemma_lookup_suffix(s: Seq<u128>, k: int, sequence: int)
    requires
        history_wf(s),
        0 <= k < s.len(),
        seq_of(s[k]) <= sequence,
    ensures
        lookup(s.subrange(k, s.len() as int), sequence) == lookup(s, sequence),
    decreases s.len(),
{
    let t = s.subrange(k, s.len() as int);
    if seq_of(s.last()) > sequence {
        assert(k < s.len() - 1);
        assert(t.drop_last() =~= s.drop_last().subrange(k, s.len() - 1));
        lemma_lookup_suffix(s.drop_last(), k, sequence);
    }
}

/// Packing and unpacking of checkpoints.
pub trait Checkpoint: Sized {
    /// Packs a ledger sequence number and an amount into a checkpoint; fails with
    /// `InvalidCheckpointError` when the amount is negative or does not fit in 96 bits.
    fn from_checkpoint_data(sequence: u32, amount: i128) -> Result<Self, TokenVotesError>;

    /// Unpacks a checkpoint into its ledger sequence number and amount.
    fn to_checkpoint_data(self) -> (u32, i128);
}

impl Checkpoint for u128 {
    fn from_checkpoint_data(sequence: u32, amount: i128) -> (r: Result<u128, TokenVotesError>)
        ensures
            fits_checkpoint(amount as int) ==> r == Ok::<u128, TokenVotesError>(
                checkpoint(sequence, amount as int),
            ),
            !fits_checkpoint(amount as int) ==> r == Err::<u128, TokenVotesError>(
                TokenVotesError::InvalidCheckpointError,
            ),
    {
        let temp = amount & -0x1_0000_0000_0000_0000_0000_0000i128;
        assert((amount & -0x1_0000_0000_0000_0000_0000_0000i128 != 0) == (amount < 0
            || amount >= 0x1_0000_0000_0000_0000_0000_0000i128)) by (bit_vector);
        if temp != 0 {
            return Err(TokenVotesError::InvalidCheckpointError);
        }
        assert(((sequence as u128) << 96u128) | (amount as u128) == (sequence as u128)
            * 0x1_0000_0000_0000_0000_0000_0000u128 + (amount as u128)) by (bit_vector)
            requires
                0 <= amount < 0x1_0000_0000_0000_0000_0000_0000i128,
        ;
        Ok((sequence as u128) << 96u128 | (amount as u128))
    }

    fn to_checkpoint_data(self) -> (r: (u32, i128))
        ensures
            r.0 == seq_of(self),
            r.1 == amount_of(self),
    {
        let c = self;
        assert((c >> 96u128) as u32 == c / 0x1_0000_0000_0000_0000_0000_0000u128) by (bit_vector);
        assert(c & 0xFFFF_FFFF_FFFF_FFFF_FFFF_FFFFu128 == c % 0x1_0000_0000_0000_0000_0000_0000u128)
            by (bit_vector);
        proof {
            lemma_split(c);
        }
        let sequence = (c >> 96u128) as u32;
        let amount = (c & 0xFFFF_FFFF_FFFF_FFFF_FFFF_FFFFu128) as i128;
        (sequence, amount)
    }
}

/// Some vote ledger lies in `[sequence, now)`: a vote can ask for the amount in
/// effect at `sequence`.
pub open spec fn needed_by_vote(vote_ledgers: Seq<u32>, sequence: int, now: u32) -> bool {
    exists|v: u32| vote_ledgers.contains(v) && sequence <= v < now
}

/// A checkpoint recorded at `last` is superseded by one recorded at `sequence`: at
/// the same ledger, or after the latest vote ledger before `sequence` (when there is
/// one), so that no vote ledger lies in `[last, sequence)`.
pub open spec fn superseded(vote_ledgers: Seq<u32>, last: int, sequence: int) -> bool {
    ||| last == sequence
    ||| {
        &&& exists|v: u32| vote_ledgers.contains(v) && v < sequence
        &&& forall|v: u32| vote_ledgers.contains(v) && v < sequence ==> v < last
    }
}

/// The history with `to_add` appended when a vote needs it, in place of a
/// superseded last checkpoint.
pub open spec fn appended(s: Seq<u128>, vote_ledgers: Seq<u32>, to_add: u128, now: u32) -> Seq<u128> {
    if !needed_by_vote(vote_ledgers, seq_of(to_add), now) {
        s
    } else if s.len() > 0 && superseded(vote_ledgers, seq_of(s.last()), seq_of(to_add)) {
        s.drop_last().push(to_add)
    } else {
        s.push(to_add)
    }
}

/// The pruned history starts at index `k`: at the latest checkpoint at or before
/// `key`, or at the first one when there is none.
pub open spec fn prune_start(s: Seq<u128>, key: u128, k: int) -> bool {
    &&& 0 <= k
    &&& s.len() == 0 ==> k == 0
    &&& s.len() > 0 ==> k < s.len()
    &&& forall|j: int| 0 < j <= k ==> s[j] <= key
    &&& forall|j: int| k < j < s.len() ==> s[j] > key
}

/// Appends `to_add` to the history when a vote ledger needs it, and prunes
/// checkpoints that no vote ledger can ask for any more. Returns whether the
/// history changed (and must be written back).
///
/// `to_add` is the checkpoint being replaced by a new one recorded at `now`. It is
/// kept when some vote ledger lies at or after its sequence number and before
/// `now`; the last checkpoint is dropped when the one being added makes it
/// unreachable from every vote ledger; checkpoints before the oldest vote ledger
/// are pruned, except the latest one at or before it.
#[verifier::rlimit(60)]
#[verifier::spinoff_prover]
pub fn add_checkpoint(
    vote_ledgers: &soroban_sdk::Vec<u32>,
    checkpoints: &mut soroban_sdk::Vec<u128>,
    to_add: &u128,
    now: u32,
) -> (needs_write: bool)
    requires
        history_wf(checkpoint_list(*old(checkpoints))),
        history_through(checkpoint_list(*old(checkpoints)), seq_of(*to_add)),
        seq_of(*to_add) <= now,
        checkpoint_list(*old(checkpoints)).len() < u32::MAX,
    ensures
        history_wf(checkpoint_list(*final(checkpoints))),
        history_through(checkpoint_list(*final(checkpoints)), now as int),
        history_before(checkpoint_list(*old(checkpoints)), seq_of(*to_add)) ==> history_before(
            checkpoint_list(*final(checkpoints)),
            now as int,
        ),
        // with sorted vote ledgers, every amount a passed vote ledger can ask for is
        // unchanged
        sorted_ledgers(ledger_list(*vote_ledgers)) ==> forall|v: u32|
            ledger_list(*vote_ledgers).contains(v) && v < now ==> #[trigger] lookup(
                checkpoint_list(*final(checkpoints)),
                v as int,
            ) == value_at(*to_add, checkpoint_list(*old(checkpoints)), v as int),
        // with sorted vote ledgers, `to_add` is kept exactly when a vote ledger lies
        // in [its sequence, now)
        sorted_ledgers(ledger_list(*vote_ledgers)) && !checkpoint_list(*old(checkpoints)).contains(
            *to_add,
        ) ==> (checkpoint_list(*final(checkpoints)).len() > 0 && checkpoint_list(
            *final(checkpoints),
        ).last() == *to_add) == (exists|v: u32|
            ledger_list(*vote_ledgers).contains(v) && seq_of(*to_add) <= v < now),
        // nothing else is added
        forall|i: int|
            0 <= i < checkpoint_list(*final(checkpoints)).len() ==> (
            #[trigger] checkpoint_list(*final(checkpoints))[i] == *to_add || checkpoint_list(
                *old(checkpoints),
            ).contains(checkpoint_list(*final(checkpoints))[i])),
        // at most one checkpoint before the oldest vote ledger is kept
        ledger_list(*vote_ledgers).len() > 0 ==> forall|i: int|
            1 <= i < checkpoint_list(*final(checkpoints)).len() ==> seq_of(
                #[trigger] checkpoint_list(*final(checkpoints))[i],
            ) >= ledger_list(*vote_ledgers)[0],
        // the flag is set whenever the history changed, and otherwise only when
        // `to_add` replaced an equal checkpoint
        checkpoint_list(*final(checkpoints)) != checkpoint_list(*old(checkpoints)) ==> needs_write,
        needs_write ==> checkpoint_list(*final(checkpoints)) != checkpoint_list(*old(checkpoints))
            || checkpoint_list(*old(checkpoints)).contains(*to_add),
        checkpoint_list(*final(checkpoints)).len() <= checkpoint_list(*old(checkpoints)).len() + 1,
        // with no vote ledgers nothing changes
        ledger_list(*vote_ledgers).len() == 0 ==> !needs_write && checkpoint_list(
            *final(checkpoints),
        ) == checkpoint_list(*old(checkpoints)),
        // with strictly ascending vote ledgers, the resulting history exactly: `to_add`
        // appended when a vote needs it (in place of a superseded last checkpoint),
        // then cut to start at the latest checkpoint at or before the oldest vote
        // ledger
        ledger_list(*vote_ledgers).len() > 0 && strictly_sorted_ledgers(ledger_list(*vote_ledgers))
            ==> exists|k: int|
            {
                &&& #[trigger] prune_start(
                    appended(checkpoint_list(*old(checkpoints)), ledger_list(*vote_ledgers), *to_add, now),
                    checkpoint(ledger_list(*vote_ledgers)[0], 0),
                    k,
                )
                &&& checkpoint_list(*final(checkpoints)) == appended(
                    checkpoint_list(*old(checkpoints)),
                    ledger_list(*vote_ledgers),
                    *to_add,
                    now,
                ).subrange(
                    k,
                    appended(checkpoint_list(*old(checkpoints)), ledger_list(*vote_ledgers), *to_add, now).len() as int,
                )
                &&& needs_write == (needed_by_vote(ledger_list(*vote_ledgers), seq_of(*to_add), now)
                    || k != 0)
            },
{
    let ghost vl = ledger_list(*vote_ledgers);
    let ghost s0 = checkpoint_list(*checkpoints);
    let ghost t = seq_of(*to_add);
    let mut needs_write = false;
    let mut len = checkpoints_len(checkpoints);

    let (to_add_seq, _) = to_add.to_checkpoint_data();

    let vote_ledgers_len = ledgers_len(vote_ledgers);
    if vote_ledgers_len != 0 {
        // find the first vote ledger at or after `to_add`
        let found = ledgers_search(vote_ledgers, to_add_seq);
        let (vote_ledger_index, vote_ledger) = match found {
            Ok(index) => {
                if index < vote_ledgers_len {
                    (index, ledgers_get(vote_ledgers, index))
                } else {
                    // only an unsorted list gives an index outside it
                    (0, 0)
                }
            },
            Err(index) => {
                if index >= vote_ledgers_len {
                    // `to_add` is after every vote ledger
                    (0, 0)
                } else {
                    (index, ledgers_get(vote_ledgers, index))
                }
            },
        };
        let ghost pushed = vote_ledger >= to_add_seq && vote_ledger < now;
        proof {
            if pushed && sorted_ledgers(vl) {
                assert(vl.contains(vote_ledger) && t <= vote_ledger < now);
                assert(vote_ledger == vl[vote_ledger_index as int]);
                // every vote ledger before `to_add` is before the chosen one
                assert forall|j: int| 0 <= j < vl.len() && vl[j] < t implies j < vote_ledger_index
                    by {
                    if j >= vote_ledger_index {
                        assert(vl[vote_ledger_index as int] <= vl[j]);
                    }
                }
            } else if sorted_ledgers(vl) {
                // no vote ledger lies in [t, now)
                assert forall|v: u32| vl.contains(v) && t <= v implies v >= now by {
                    let j = choose|j: int| 0 <= j < vl.len() && vl[j] == v;
                    if vote_ledger_index as int == 0 && vote_ledger == 0 && t > 0 {
                    } else {
                        assert(vote_ledger == vl[vote_ledger_index as int]);
                        if j < vote_ledger_index {
                        } else {
                            assert(vl[vote_ledger_index as int] <= vl[j]);
                        }
                    }
                }
            }
        }
        if vote_ledger >= to_add_seq && vote_ledger < now {
            if len == 0 {
                checkpoints_push(checkpoints, *to_add);
                proof {
                    if strictly_sorted_ledgers(vl) {
                        assert(needed_by_vote(vl, t, now));
                        assert(checkpoint_list(*checkpoints) =~= appended(s0, vl, *to_add, now));
                    }
                    assert forall|v: u32| vl.contains(v) && v < now implies lookup(
                        checkpoint_list(*checkpoints),
                        v as int,
                    ) == value_at(*to_add, s0, v as int) by {
                        lemma_lookup_push(s0, *to_add, v as int);
                    }
                }
            } else {
                let last = checkpoints_get(checkpoints, len - 1);
                let (last_seq, _) = last.to_checkpoint_data();
                // the last checkpoint is superseded when it was recorded at the ledger of
                // `to_add`, or when it lies after the previous vote ledger: no vote can
                // reach it once `to_add` follows it
                let drop_last = if last_seq == to_add_seq {
                    true
                } else if vote_ledger_index > 0 {
                    let prev_vote_ledger = ledgers_get(vote_ledgers, vote_ledger_index - 1);
                    proof {
                        if sorted_ledgers(vl) {
                            assert(vl.contains(prev_vote_ledger));
                            assert forall|v: u32| vl.contains(v) && v < t implies v
                                <= prev_vote_ledger by {
                                let j = choose|j: int| 0 <= j < vl.len() && vl[j] == v;
                                assert(j < vote_ledger_index);
                                assert(vl[j] <= vl[vote_ledger_index - 1]);
                            }
                        }
                        if strictly_sorted_ledgers(vl) {
                            assert(prev_vote_ledger < t) by {
                                if found is Ok {
                                    assert(vl[vote_ledger_index - 1] < vl[vote_ledger_index as int]);
                                }
                            }
                        }
                    }
                    last_seq > prev_vote_ledger
                } else {
                    false
                };
                proof {
                    lemma_split(last);
                    if strictly_sorted_ledgers(vl) {
                        if vote_ledger_index == 0 {
                            // no vote ledger lies before `to_add`
                            assert forall|v: u32| vl.contains(v) implies v >= t by {
                                let j = choose|j: int| 0 <= j < vl.len() && vl[j] == v;
                                if found is Ok {
                                    if j > 0 {
                                        assert(vl[0] < vl[j]);
                                    }
                                }
                            }
                        }
                        assert(drop_last == superseded(vl, last_seq as int, t));
                    }
                }
                if drop_last {
                    checkpoints_pop(checkpoints);
                    len -= 1;
                    proof {
                        // no vote ledger before `to_add` reaches the dropped checkpoint
                        assert forall|v: u32| sorted_ledgers(vl) && vl.contains(v) && v < t implies lookup(
                            checkpoint_list(*checkpoints),
                            v as int,
                        ) == lookup(s0, v as int) by {
                            assert(checkpoint_list(*checkpoints) =~= s0.drop_last());
                        }
                    }
                }
                let ghost s_mid = checkpoint_list(*checkpoints);
                checkpoints_push(checkpoints, *to_add);
                len += 1;
                proof {
                    assert forall|v: u32| sorted_ledgers(vl) && vl.contains(v) && v < now implies lookup(
                        checkpoint_list(*checkpoints),
                        v as int,
                    ) == value_at(*to_add, s0, v as int) by {
                        lemma_lookup_push(s_mid, *to_add, v as int);
                    }

                    assert forall|i: int| 0 <= i < s_mid.len() implies s0.contains(#[trigger] s_mid[i]) by {
                        assert(s0[i] == s_mid[i]);
                    }
                    if strictly_sorted_ledgers(vl) {
                        assert(needed_by_vote(vl, t, now));
                        assert(last == s0.last());
                        assert(checkpoint_list(*checkpoints) =~= appended(s0, vl, *to_add, now));
                    }
                }
            }
            needs_write = true;
        }
        let ghost s1 = checkpoint_list(*checkpoints);
        proof {
            assert(history_wf(s1));
            assert(history_through(s1, now as int));
            assert(history_before(s0, t) ==> history_before(s1, now as int));
            assert(pushed ==> s1.len() > 0 && s1.last() == *to_add);
            assert(pushed && s1 == s0 ==> s0.contains(*to_add));
            assert(!pushed ==> s1 == s0);
            assert(!s0.contains(*to_add) ==> (s1.len() > 0 && s1.last() == *to_add) == pushed);
            assert(sorted_ledgers(vl) && pushed ==> vl.contains(vote_ledger) && t <= vote_ledger < now);
            assert(len == s1.len() || (len == 0 && s1.len() == 1));
            assert(s1.len() <= s0.len() + 1);
            assert(sorted_ledgers(vl) ==> (pushed <==> needed_by_vote(vl, t, now)));
            assert(strictly_sorted_ledgers(vl) ==> s1 == appended(s0, vl, *to_add, now));
            lemma_history_sorted(s1);
        }
        // prune checkpoints older than the oldest vote ledger, except the most
        // recent checkpoint at or before it
        let max_sequence = ledgers_get(vote_ledgers, 0);
        proof {
            lemma_checkpoint_roundtrip(max_sequence, 0);
        }
        let search = match u128::from_checkpoint_data(max_sequence, 0) {
            Ok(c) => c,
            Err(_) => 0,
        };
        let found_start = checkpoints_search(checkpoints, search);
        let lower_bound_inclusive = match found_start {
            Ok(index) => index,
            Err(index) => {
                if index == 0 {
                    0
                } else {
                    index - 1
                }
            },
        };
        proof {
            assert(lower_bound_inclusive == 0 || lower_bound_inclusive < s1.len());
            assert(prune_start(s1, search, lower_bound_inclusive as int)) by {
                if found_start is Ok {
                    assert forall|j: int| 0 < j <= lower_bound_inclusive implies s1[j] <= search by {
                        if j < lower_bound_inclusive {
                            assert(s1[j] < s1[lower_bound_inclusive as int]);
                        }
                    }
                    assert forall|j: int| lower_bound_inclusive < j < s1.len() implies s1[j] > search by {
                        assert(s1[lower_bound_inclusive as int] < s1[j]);
                    }
                }
            }
            if lower_bound_inclusive != 0 {
                lemma_split(s1[lower_bound_inclusive as int]);
                assert(seq_of(s1[lower_bound_inclusive as int]) <= max_sequence);
            }
            assert forall|i: int| lower_bound_inclusive < i < s1.len() implies seq_of(
                #[trigger] s1[i],
            ) >= max_sequence by {
                lemma_split(s1[i]);
                lemma_split(s1[lower_bound_inclusive as int]);
            }
        }
        if lower_bound_inclusive != 0 && lower_bound_inclusive <= len {
            *checkpoints = checkpoints_slice(checkpoints, lower_bound_inclusive, len);
            needs_write = true;
            proof {
                let s2 = checkpoint_list(*checkpoints);
                assert forall|v: u32| sorted_ledgers(vl) && vl.contains(v) && v < now implies lookup(s2, v as int)
                    == value_at(*to_add, s0, v as int) by {
                    let j = choose|j: int| 0 <= j < vl.len() && vl[j] == v;
                    assert(vl[0] <= vl[j]);
                    lemma_lookup_suffix(s1, lower_bound_inclusive as int, v as int);
                }
                assert(s2.len() < s0.len() || s2.last() == *to_add);
                assert(s2 == s0 ==> s0.contains(*to_add));
            }
        }
        proof {
            let s2 = checkpoint_list(*checkpoints);
            if lower_bound_inclusive == 0 {
                assert(s2 =~= s1.subrange(0, s1.len() as int));
            }
            assert(s2 == s1.subrange(lower_bound_inclusive as int, s1.len() as int));
            assert(needs_write == (pushed || lower_bound_inclusive != 0));
            if strictly_sorted_ledgers(vl) {
                assert(search == checkpoint(vl[0], 0));
                assert(prune_start(
                    appended(s0, vl, *to_add, now),
                    checkpoint(vl[0], 0),
                    lower_bound_inclusive as int,
                ));
            }
        }
    }
    needs_write
}

/// The amount the history records at `sequence`: the amount of its latest
/// checkpoint recorded at or before `sequence`, or zero when there is none.
pub fn upper_lookup(checkpoints: &soroban_sdk::Vec<u128>, sequence: u32) -> (r: i128)
    requires
        history_wf(checkpoint_list(*checkpoints)),
    ensures
        r == lookup(checkpoint_list(*checkpoints), sequence as int),
{
    let ghost s = checkpoint_list(*checkpoints);
    // the largest checkpoint recorded at `sequence`
    let key: u128 = (sequence as u128) << 96u128 | 0xFFFF_FFFF_FFFF_FFFF_FFFF_FFFFu128;
    assert(((sequence as u128) << 96u128) | 0xFFFF_FFFF_FFFF_FFFF_FFFF_FFFFu128 == (sequence as u128)
        * 0x1_0000_0000_0000_0000_0000_0000u128 + 0xFFFF_FFFF_FFFF_FFFF_FFFF_FFFFu128)
        by (bit_vector);
    proof {
        lemma_history_sorted(s);
    }
    let _len = checkpoints_len(checkpoints);
    let found = checkpoints_search(checkpoints, key);
    let index = match found {
        Ok(i) => i + 1,
        Err(i) => i,
    };
    proof {
        assert forall|j: int| 0 <= j < index implies seq_of(#[trigger] s[j]) <= sequence by {
            lemma_split(s[j]);
            if found is Ok {
                assert(s[j] <= s[index - 1]);
            }
        }
        assert forall|j: int| index <= j < s.len() implies seq_of(#[trigger] s[j]) > sequence by {
            lemma_split(s[j]);
            if found is Ok {
                assert(s[j] > s[index - 1]);
            }
        }
        lemma_lookup_split(s, sequence as int, index as int);
    }
    if index == 0 {
        0
    } else {
        let (_, amount) = checkpoints_get(checkpoints, index - 1).to_checkpoint_data();
        amount
    }
}

/// `new` is `old` after recording `amount` at ledger `now`: the latest checkpoint
/// holds `amount` at `now`, the earlier checkpoints are those `add_checkpoint`
/// leaves once the replaced latest checkpoint went through it (at most one more),
/// and every amount a passed vote ledger can ask for is unchanged (when the vote
/// ledgers are sorted).
pub open spec fn recorded(old: VotingHistory, new: VotingHistory, vote_ledgers: Seq<u32>, now: u32, amount: int) -> bool {
    &&& new.current_checkpoint() == checkpoint(now, amount)
    &&& new.current_seq() == now
    &&& new.current_amount() == amount
    &&& new.history().len() <= old.history().len() + 1
    &&& sorted_ledgers(vote_ledgers) ==> forall|v: u32|
        vote_ledgers.contains(v) && v < now ==> #[trigger] new.value_at(v as int) == old.value_at(
            v as int,
        )
    &&& checkpoint_added(old.history(), vote_ledgers, old.current_checkpoint(), now, new.history())
}

/// `after` is the history `before` once `to_add` went through `add_checkpoint` at
/// ledger `now`: unchanged without vote ledgers, and, with strictly ascending vote
/// ledgers, `to_add` appended when a vote needs it (in place of a superseded last
/// checkpoint), then cut to start at the latest checkpoint at or before the oldest
/// vote ledger.
pub open spec fn checkpoint_added(
    before: Seq<u128>,
    vote_ledgers: Seq<u32>,
    to_add: u128,
    now: u32,
    after: Seq<u128>,
) -> bool {
    &&& vote_ledgers.len() == 0 ==> after == before
    &&& vote_ledgers.len() > 0 && strictly_sorted_ledgers(vote_ledgers) ==> exists|k: int|
        {
            &&& #[trigger] prune_start(
                appended(before, vote_ledgers, to_add, now),
                checkpoint(vote_ledgers[0], 0),
                k,
            )
            &&& after == appended(before, vote_ledgers, to_add, now).subrange(
                k,
                appended(before, vote_ledgers, to_add, now).len() as int,
            )
        }
}

/// What recording `amount` in `h` gives: `InvalidCheckpointError` when the amount
/// is negative or does not fit in 96 bits, `OverflowError` when the history has no
/// room left, success otherwise.
pub open spec fn record_outcome(h: VotingHistory, amount: int) -> Result<(), TokenVotesError> {
    if !fits_checkpoint(amount) {
        Err(TokenVotesError::InvalidCheckpointError)
    } else if h.is_full() {
        Err(TokenVotesError::OverflowError)
    } else {
        Ok(())
    }
}

/// What taking `amount` units from `h` gives: `InsufficientVotesError` when `h`
/// holds fewer, otherwise what recording the rest gives.
pub open spec fn withdraw_outcome(h: VotingHistory, amount: int) -> Result<(), TokenVotesError> {
    if h.current_amount() < amount {
        Err(TokenVotesError::InsufficientVotesError)
    } else {
        record_outcome(h, h.current_amount() - amount)
    }
}

/// What adding `amount` units to `h` gives.
pub open spec fn deposit_outcome(h: VotingHistory, amount: int) -> Result<(), TokenVotesError> {
    record_outcome(h, h.current_amount() + amount)
}

/// A value tracked through time (the voting units of an account, or the total
/// supply): its latest checkpoint and the earlier checkpoints kept for vote ledgers.
/// The earlier checkpoints are ordered and all older than the latest one.
pub struct VotingHistory {
    current: u128,
    checkpoints: soroban_sdk::Vec<u128>,
}

/// `Vec::<u128>::clone`: another handle on the same host vector.
#[verifier::external_body]
fn checkpoints_clone(v: &soroban_sdk::Vec<u128>) -> (r: soroban_sdk::Vec<u128>)
    ensures
        checkpoint_list(r) == checkpoint_list(*v),
{
    v.clone()
}

impl VotingHistory {
    #[verifier::type_invariant]
    spec fn inv(self) -> bool {
        &&& history_wf(checkpoint_list(self.checkpoints))
        &&& history_before(checkpoint_list(self.checkpoints), seq_of(self.current))
    }

    /// The latest checkpoint.
    pub closed spec fn current_checkpoint(&self) -> u128 {
        self.current
    }

    /// The earlier checkpoints, oldest first.
    pub closed spec fn history(&self) -> Seq<u128> {
        checkpoint_list(self.checkpoints)
    }

    /// The ledger of the latest checkpoint.
    pub open spec fn current_seq(&self) -> int {
        seq_of(self.current_checkpoint())
    }

    /// The current amount.
    pub open spec fn current_amount(&self) -> int {
        amount_of(self.current_checkpoint())
    }

    /// The amount in effect at `sequence`.
    pub open spec fn value_at(&self, sequence: int) -> int {
        value_at(self.current_checkpoint(), self.history(), sequence)
    }

    /// The history can take a new amount at ledger `now`: its latest checkpoint is
    /// not in the future.
    pub open spec fn ready(&self, now: u32) -> bool {
        self.current_seq() <= now
    }

    /// The host vector of checkpoints has no room left.
    pub open spec fn is_full(&self) -> bool {
        self.history().len() >= u32::MAX
    }

    /// A history from its latest checkpoint and its earlier ones, or `None` unless
    /// the earlier ones are ordered and all older than the latest one.
    pub fn new(current: u128, checkpoints: soroban_sdk::Vec<u128>) -> (r: Option<VotingHistory>)
        ensures
            (history_wf(checkpoint_list(checkpoints)) && history_before(
                checkpoint_list(checkpoints),
                seq_of(current),
            )) <==> r is Some,
            r matches Some(h) ==> h.current_checkpoint() == current && h.history() == checkpoint_list(
                checkpoints,
            ),
    {
        let ghost s = checkpoint_list(checkpoints);
        let len = checkpoints_len(&checkpoints);
        let (current_seq, _) = current.to_checkpoint_data();
        let mut i: u32 = 0;
        let mut last_seq: u32 = 0;
        while i < len
            invariant
                len == s.len(),
                s == checkpoint_list(checkpoints),
                current_seq == seq_of(current),
                i <= len,
                forall|j: int, k: int| 0 <= j < k < i ==> seq_of(s[j]) < seq_of(s[k]),
                forall|j: int| 0 <= j < i ==> seq_of(s[j]) < current_seq,
                i > 0 ==> last_seq == seq_of(s[i - 1]),
            decreases len - i,
        {
            let (seq, _) = checkpoints_get(&checkpoints, i).to_checkpoint_data();
            if seq >= current_seq || (i > 0 && seq <= last_seq) {
                proof {
                    if seq >= current_seq {
                        assert(!history_before(s, seq_of(current)));
                    } else {
                        assert(!history_wf(s)) by {
                            assert(seq_of(s[i - 1]) >= seq_of(s[i as int]));
                        }
                    }
                }
                return None;
            }
            proof {
                assert forall|j: int, k: int| 0 <= j < k < i + 1 implies seq_of(s[j]) < seq_of(s[k]) by {
                    if k == i && j < i - 1 {
                        assert(seq_of(s[j]) < seq_of(s[i - 1]));
                    }
                }
            }
            last_seq = seq;
            i = i + 1;
        }
        Some(VotingHistory { current, checkpoints })
    }

    /// The latest checkpoint and the host vector of earlier checkpoints.
    pub fn into_parts(self) -> (r: (u128, soroban_sdk::Vec<u128>))
        ensures
            r.0 == self.current_checkpoint(),
            checkpoint_list(r.1) == self.history(),
    {
        (self.current, self.checkpoints)
    }

    /// The latest checkpoint.
    pub fn current(&self) -> (r: u128)
        ensures
            r == self.current_checkpoint(),
    {
        self.current
    }

    /// The current amount.
    pub fn amount(&self) -> (r: i128)
        ensures
            r == self.current_amount(),
            fits_checkpoint(r as int),
    {
        proof {
            lemma_split(self.current);
        }
        let (_, amount) = self.current.to_checkpoint_data();
        amount
    }

    /// What recording `amount` would give, without recording it.
    pub fn check_record(&self, amount: i128) -> (r: Result<(), TokenVotesError>)
        ensures
            r == record_outcome(*self, amount as int),
    {
        if amount < 0 || amount >= 0x1_0000_0000_0000_0000_0000_0000i128 {
            return Err(TokenVotesError::InvalidCheckpointError);
        }
        if checkpoints_len(&self.checkpoints) == u32::MAX {
            return Err(TokenVotesError::OverflowError);
        }
        Ok(())
    }

    /// Records `amount` as the value from ledger `now` on, keeping the checkpoint it
    /// replaces when a vote ledger needs it.
    ///
    /// Fails with `InvalidCheckpointError` when the amount is negative or does not
    /// fit in 96 bits, and with `OverflowError` when the host vector of checkpoints
    /// has no room left for another one.
    pub fn record(
        &mut self,
        vote_ledgers: &soroban_sdk::Vec<u32>,
        now: u32,
        amount: i128,
    ) -> (r: Result<(), TokenVotesError>)
        requires
            old(self).ready(now),
        ensures
            r == record_outcome(*old(self), amount as int),
            r is Err ==> *final(self) == *old(self),
            r is Ok ==> recorded(*old(self), *final(self), ledger_list(*vote_ledgers), now, amount as int),
    {
        proof {
            use_type_invariant(&*self);
        }
        let new_current = match u128::from_checkpoint_data(now, amount) {
            Ok(c) => c,
            Err(e) => {
                return Err(e);
            },
        };
        if checkpoints_len(&self.checkpoints) == u32::MAX {
            return Err(TokenVotesError::OverflowError);
        }
        proof {
            lemma_checkpoint_roundtrip(now, amount as int);
        }
        let previous = self.current;
        let mut checkpoints = checkpoints_clone(&self.checkpoints);
        add_checkpoint(vote_ledgers, &mut checkpoints, &previous, now);
        *self = VotingHistory { current: new_current, checkpoints };
        Ok(())
    }

    /// The amount in effect at the closed ledger `sequence`; fails with
    /// `SequenceNotClosedError` when `sequence` is not before the current ledger `now`.
    pub fn past_amount(&self, sequence: u32, now: u32) -> (r: Result<i128, TokenVotesError>)
        ensures
            sequence >= now ==> r == Err::<i128, TokenVotesError>(
                TokenVotesError::SequenceNotClosedError,
            ),
            sequence < now ==> r == Ok::<i128, TokenVotesError>(self.value_at(sequence as int) as i128),
    {
        proof {
            use_type_invariant(self);
        }
        if sequence >= now {
            return Err(TokenVotesError::SequenceNotClosedError);
        }
        let (cur_seq, cur_amount) = self.current.to_checkpoint_data();
        if cur_seq <= sequence {
            return Ok(cur_amount);
        }
        Ok(upper_lookup(&self.checkpoints, sequence))
    }
}

/// A recorded amount reads back: once `amount` is recorded at ledger `now`, it is
/// the amount in effect at `now` and at every later ledger.
pub proof fn lemma_record_reads_back(
    before: VotingHistory,
    after: VotingHistory,
    vote_ledgers: Seq<u32>,
    now: u32,
    amount: int,
    sequence: int,
)
    requires
        recorded(before, after, vote_ledgers, now, amount),
        now <= sequence,
    ensures
        after.value_at(sequence) == amount,
{
}

/// Recording a new amount never changes what a vote asks for: at every vote ledger
/// before the change, the amount in effect is the one in effect before it, through
/// any number of later changes.
pub proof fn lemma_record_keeps_vote_ledgers(
    before: VotingHistory,
    middle: VotingHistory,
    after: VotingHistory,
    vote_ledgers: Seq<u32>,
    first: u32,
    first_amount: int,
    second: u32,
    second_amount: int,
    v: u32,
)
    requires
        sorted_ledgers(vote_ledgers),
        recorded(before, middle, vote_ledgers, first, first_amount),
        recorded(middle, after, vote_ledgers, second, second_amount),
        vote_ledgers.contains(v),
        v < first <= second,
    ensures
        after.value_at(v as int) == before.value_at(v as int),
{
}


/// Reads at a past vote ledger never change: through any run of recorded changes,
/// each made after ledger `v` while `v` is one of the (ordered) vote ledgers, the
/// amount in effect at `v`, which `past_amount` reads, stays what it was.
pub proof fn lemma_past_reads_stable(
    states: Seq<VotingHistory>,
    ledgers: Seq<Seq<u32>>,
    times: Seq<u32>,
    amounts: Seq<int>,
    v: u32,
)
    requires
        states.len() == times.len() + 1,
        ledgers.len() == times.len(),
        amounts.len() == times.len(),
        forall|i: int|
            0 <= i < times.len() ==> {
                &&& sorted_ledgers(#[trigger] ledgers[i])
                &&& ledgers[i].contains(v)
                &&& v < times[i]
                &&& recorded(states[i], states[i + 1], ledgers[i], times[i], amounts[i])
            },
    ensures
        states.last().value_at(v as int) == states[0].value_at(v as int),
    decreases times.len(),
{
    if times.len() > 0 {
        let n = times.len() - 1;
        let earlier = states.drop_last();
        assert forall|i: int| 0 <= i < n implies {
            &&& sorted_ledgers(#[trigger] ledgers.drop_last()[i])
            &&& ledgers.drop_last()[i].contains(v)
            &&& v < times.drop_last()[i]
            &&& recorded(
                earlier[i],
                earlier[i + 1],
                ledgers.drop_last()[i],
                times.drop_last()[i],
                amounts.drop_last()[i],
            )
        } by {
            assert(sorted_ledgers(ledgers[i]));
        }
        lemma_past_reads_stable(earlier, ledgers.drop_last(), times.drop_last(), amounts.drop_last(), v);
        assert(sorted_ledgers(ledgers[n]));
        assert(earlier.last() == states[n]);
    }
}

} // verus!
