//! Helper computations of the program: the next counters, the check that a
//! top-entries account belongs to its leaderboard, and the key set of a merge.
use vstd::prelude::*;

use crate::pubkey::Pubkey;
use crate::state::{Account, Game, LeaderBoard};

verus! {

/// The number of the achievement that is added next to `game`. The count
/// must be below its maximum: where the next number does not fit, the
/// instruction aborts.
pub fn next_achievement(game: &Account<Game>) -> (res: u64)
    requires
        game.data.achievement_count < u64::MAX,
    ensures
        res == game.data.achievement_count + 1,
{
    game.data.achievement_count + 1
}

/// The number of the leaderboard that is added next to `game`. The count
/// must be below its maximum: where the next number does not fit, the
/// instruction aborts.
pub fn next_leaderboard(game: &Account<Game>) -> (res: u64)
    requires
        game.data.leaderboard_count < u64::MAX,
    ensures
        res == game.data.leaderboard_count + 1,
{
    game.data.leaderboard_count + 1
}

/// Whether the account at `entry` may serve as the top-entries account of
/// `leaderboard`.
pub open spec fn top_entries_match(leaderboard: LeaderBoard, entry: Pubkey) -> bool {
    match leaderboard.top_entries {
        Some(expected) => expected == entry,
        None => true,
    }
}

/// A leaderboard that names its top-entries account accepts only that
/// account; one that names none accepts any.
pub fn check_top_entries(leaderboard: &Account<LeaderBoard>, entry: &Pubkey) -> (res: bool)
    ensures
        res == top_entries_match(leaderboard.data, *entry),
{
    match leaderboard.data.top_entries {
        Some(expected) => expected == *entry,
        None => true,
    }
}

/// The players asked to approve a merge started by `initiator` when it
/// names `input`: every key given, except the initiator's own.
pub open spec fn merge_keys(initiator: Pubkey, input: Seq<Pubkey>) -> Set<Pubkey> {
    input.to_set().remove(initiator)
}

/// Whether `keys` lists every key of `expected` exactly once.
pub open spec fn lists_each_once(keys: Seq<Pubkey>, expected: Set<Pubkey>) -> bool {
    &&& keys.no_duplicates()
    &&& keys.to_set() == expected
}

/// The input with repeats and the initiator removed, each key kept at its
/// first occurrence.
pub open spec fn first_occurrences(initiator: Pubkey, input: Seq<Pubkey>) -> Seq<Pubkey>
    decreases input.len(),
{
    if input.len() == 0 {
        Seq::empty()
    } else {
        let earlier = first_occurrences(initiator, input.drop_last());
        let key = input.last();
        if key == initiator || earlier.contains(key) {
            earlier
        } else {
            earlier.push(key)
        }
    }
}

/// Keeping first occurrences lists every key of the merge exactly once.
pub proof fn lemma_first_occurrences_list_merge_keys(initiator: Pubkey, input: Seq<Pubkey>)
    ensures
        lists_each_once(first_occurrences(initiator, input), merge_keys(initiator, input)),
    decreases input.len(),
{
    if input.len() > 0 {
        let earlier_input = input.drop_last();
        lemma_first_occurrences_list_merge_keys(initiator, earlier_input);
        let earlier = first_occurrences(initiator, earlier_input);
        let key = input.last();
        assert(input =~= earlier_input.push(key));
        assert forall|k: Pubkey| #[trigger] input.contains(k) <==> (earlier_input.contains(k) || k == key) by {
            vstd::seq_lib::lemma_seq_contains_after_push(earlier_input, key, k);
        }
        assert forall|k: Pubkey| #[trigger] earlier.push(key).contains(k) <==> (earlier.contains(k) || k == key) by {
            vstd::seq_lib::lemma_seq_contains_after_push(earlier, key, k);
        }
        let result = first_occurrences(initiator, input);
        assert(earlier.to_set() == merge_keys(initiator, earlier_input));
        assert forall|k: Pubkey| #[trigger] result.contains(k) <==> (input.contains(k) && k != initiator) by {
            assert(earlier.to_set().contains(k) == earlier.contains(k));
            assert(merge_keys(initiator, earlier_input).contains(k) == (earlier_input.contains(k) && k != initiator));
        }
        if !(key == initiator || earlier.contains(key)) {
            assert forall|a: int, b: int|
                0 <= a < result.len() && 0 <= b < result.len() && a != b implies #[trigger] result[a] != #[trigger] result[b] by {
                if a == earlier.len() {
                    assert(result[b] == earlier[b]);
                    assert(earlier.contains(earlier[b]));
                } else if b == earlier.len() {
                    assert(result[a] == earlier[a]);
                    assert(earlier.contains(earlier[a]));
                } else {
                    assert(result[a] == earlier[a] && result[b] == earlier[b]);
                }
            }
        }
        assert(result.to_set() =~= merge_keys(initiator, input));
    } else {
        assert(first_occurrences(initiator, input).to_set() =~= merge_keys(initiator, input));
    }
}

/// The keys of the players that a merge started by `initiator` waits for:
/// the input with repeats removed and the initiator left out, each key at
/// its first occurrence in the input. The size of the merge account, which
/// the program derives from the number of these keys, is not part of the
/// result: its formula is not available here.
pub fn dedup_input(initiator: &Pubkey, input: Vec<Pubkey>) -> (res: Vec<Pubkey>)
    ensures
        res@ == first_occurrences(*initiator, input@),
        lists_each_once(res@, merge_keys(*initiator, input@)),
{
    let mut keys: Vec<Pubkey> = Vec::new();
    let mut i: usize = 0;
    while i < input.len()
        invariant
            0 <= i <= input@.len(),
            keys@ == first_occurrences(*initiator, input@.take(i as int)),
        decreases input@.len() - i,
    {
        let key = input[i];
        let mut seen = false;
        let mut j: usize = 0;
        while j < keys.len()
            invariant
                0 <= j <= keys@.len(),
                seen <==> keys@.take(j as int).contains(key),
            decreases keys@.len() - j,
        {
            if keys[j] == key {
                seen = true;
            }
            proof {
                assert(keys@.take(j + 1) =~= keys@.take(j as int).push(keys@[j as int]));
                vstd::seq_lib::lemma_seq_contains_after_push(keys@.take(j as int), keys@[j as int], key);
            }
            j = j + 1;
        }
        proof {
            assert(keys@.take(keys@.len() as int) =~= keys@);
            assert(input@.take(i + 1).drop_last() =~= input@.take(i as int));
        }
        if !seen && key != *initiator {
            keys.push(key);
        }
        i = i + 1;
    }
    proof {
        assert(input@.take(input@.len() as int) =~= input@);
        lemma_first_occurrences_list_merge_keys(*initiator, input@);
    }
    keys
}

/// The merge's key set depends only on which keys were given: repeating a
/// key, or giving the keys in another order, changes nothing.
pub proof fn lemma_merge_keys_depend_only_on_key_set(
    initiator: Pubkey,
    a: Seq<Pubkey>,
    b: Seq<Pubkey>,
)
    requires
        a.to_set() == b.to_set(),
    ensures
        merge_keys(initiator, a) == merge_keys(initiator, b),
{
}

/// The initiator never has to approve its own merge.
pub proof fn lemma_merge_keys_exclude_initiator(initiator: Pubkey, input: Seq<Pubkey>)
    ensures
        !merge_keys(initiator, input).contains(initiator),
{
}

/// A list without repeats and without the initiator is left as it is.
pub proof fn lemma_first_occurrences_keep_distinct_list(initiator: Pubkey, keys: Seq<Pubkey>)
    requires
        keys.no_duplicates(),
        !keys.contains(initiator),
    ensures
        first_occurrences(initiator, keys) == keys,
    decreases keys.len(),
{
    if keys.len() > 0 {
        let earlier = keys.drop_last();
        assert(!earlier.contains(initiator)) by {
            if earlier.contains(initiator) {
                let k = choose|k: int| 0 <= k < earlier.len() && earlier[k] == initiator;
                assert(keys[k] == initiator);
            }
        }
        lemma_first_occurrences_keep_distinct_list(initiator, earlier);
        assert(!earlier.contains(keys.last())) by {
            if earlier.contains(keys.last()) {
                let k = choose|k: int| 0 <= k < earlier.len() && earlier[k] == keys.last();
                assert(keys[k] == keys[keys.len() - 1]);
            }
        }
        assert(keys.last() != initiator) by {
            assert(keys.contains(keys[keys.len() - 1]));
        }
        assert(earlier.push(keys.last()) =~= keys);
    }
}

/// Deduplicating the keys of a merge a second time changes nothing.
pub proof fn lemma_dedup_idempotent(initiator: Pubkey, input: Seq<Pubkey>)
    ensures
        first_occurrences(initiator, first_occurrences(initiator, input)) == first_occurrences(
            initiator,
            input,
        ),
{
    let once = first_occurrences(initiator, input);
    lemma_first_occurrences_list_merge_keys(initiator, input);
    assert(!once.contains(initiator)) by {
        assert(once.to_set().contains(initiator) == once.contains(initiator));
    }
    lemma_first_occurrences_keep_distinct_list(initiator, once);
}

} // verus!
