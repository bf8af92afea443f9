//! Program-derived addresses: the program's own address, and the address
//! that a list of seeds derives under it.
use vstd::prelude::*;

use crate::program::{next_achievement, next_leaderboard};
use crate::pubkey::Pubkey;
use crate::state::{Account, Game};

verus! {

/// The address of this program, `3UEaKjkjK2Lz6D4DqSEUHwtBsezL5RaNCeBSWStxyNU9`.
pub open spec fn spec_program_id() -> Pubkey {
    Pubkey(
        [
            36u8, 177, 103, 139, 153, 70, 206, 94, 30, 252, 54, 213, 42, 85, 223, 76, 53, 190, 12,
            82, 226, 31, 187, 63, 97, 147, 199, 59, 22, 244, 149, 234,
        ],
    )
}

/// The address of this program.
pub fn program_id() -> (res: Pubkey)
    ensures
        res == spec_program_id(),
{
    Pubkey(
        [
            36u8, 177, 103, 139, 153, 70, 206, 94, 30, 252, 54, 213, 42, 85, 223, 76, 53, 190, 12,
            82, 226, 31, 187, 63, 97, 147, 199, 59, 22, 244, 149, 234,
        ],
    )
}

/// The address and bump seed that `Pubkey::try_find_program_address`
/// derives from `seeds` under `program_id`, or `None` where it derives none.
pub uninterp spec fn program_address(seeds: Seq<Seq<u8>>, program_id: Pubkey) -> Option<(Pubkey, u8)>;

/// `Pubkey::try_find_program_address` of `solana_program` (through
/// `anchor_lang`). Claimed: its result is a function of the seeds and the
/// program address alone; what that function is (a hash search over bump
/// seeds) is left unsaid.
#[verifier::external_body]
fn try_find_program_address(seeds: &Vec<Vec<u8>>, program_id: &Pubkey) -> (res: Option<(Pubkey, u8)>)
    ensures
        res == program_address(seeds.deep_view(), *program_id),
{
    let seeds: Vec<&[u8]> = seeds.iter().map(|seed| seed.as_slice()).collect();
    let program_id = anchor_lang::prelude::Pubkey::new_from_array(program_id.0);
    anchor_lang::prelude::Pubkey::try_find_program_address(&seeds, &program_id).map(
        |(address, bump)| (Pubkey(address.to_bytes()), bump),
    )
}

/// The address that `seeds` derive under this program, if any.
pub open spec fn derived_address(seeds: Seq<Seq<u8>>) -> Option<Pubkey> {
    match program_address(seeds, spec_program_id()) {
        Some((address, _)) => Some(address),
        None => None,
    }
}

/// The address that `seeds` derive under this program; `None` where none
/// derives: an instruction that needs it aborts there.
pub fn derive_address(seeds: &Vec<Vec<u8>>) -> (res: Option<Pubkey>)
    ensures
        res == derived_address(seeds.deep_view()),
{
    match try_find_program_address(seeds, &program_id()) {
        Some((address, _)) => Some(address),
        None => None,
    }
}

/// The bytes of an address, as a seed.
pub fn key_bytes(key: &Pubkey) -> (res: Vec<u8>)
    ensures
        res@ == key.0@,
{
    let mut bytes: Vec<u8> = Vec::new();
    let mut i: usize = 0;
    while i < 32
        invariant
            0 <= i <= 32,
            bytes@ == key.0@.take(i as int),
        decreases 32 - i,
    {
        bytes.push(key.0[i]);
        proof {
            assert(key.0@.take(i + 1) =~= key.0@.take(i as int).push(key.0@[i as int]));
        }
        i = i + 1;
    }
    proof {
        assert(key.0@.take(32) =~= key.0@);
    }
    bytes
}

/// The `n` lowest bytes of `x`, least significant first.
pub open spec fn le_bytes(x: nat, n: nat) -> Seq<u8>
    decreases n,
{
    if n == 0 {
        Seq::empty()
    } else {
        seq![(x % 256) as u8] + le_bytes(x / 256, (n - 1) as nat)
    }
}

/// The eight bytes of `x`, least significant first (`u64::to_le_bytes`).
pub fn u64_le_bytes(x: u64) -> (res: Vec<u8>)
    ensures
        res@ == le_bytes(x as nat, 8),
{
    let mut bytes: Vec<u8> = Vec::new();
    let mut rest: u64 = x;
    let mut i: usize = 0;
    while i < 8
        invariant
            0 <= i <= 8,
            bytes@ + le_bytes(rest as nat, (8 - i) as nat) == le_bytes(x as nat, 8),
        decreases 8 - i,
    {
        let byte = (rest % 256) as u8;
        proof {
            let tail = le_bytes((rest / 256) as nat, (8 - i - 1) as nat);
            assert(le_bytes(rest as nat, (8 - i) as nat) == seq![byte] + tail);
            assert(bytes@.push(byte) + tail =~= bytes@ + (seq![byte] + tail));
        }
        bytes.push(byte);
        rest = rest / 256;
        i = i + 1;
    }
    proof {
        assert(bytes@ + le_bytes(rest as nat, 0) =~= bytes@);
    }
    bytes
}

/// Byte `i` of `le_bytes(x, n)` is the `i`-th base-256 digit of `x`: the
/// bytes come least significant first and there are `n` of them.
pub proof fn lemma_le_bytes_digits(x: nat, n: nat, i: nat)
    requires
        i < n,
    ensures
        le_bytes(x, n).len() == n,
        le_bytes(x, n)[i as int] == ((x as int / vstd::arithmetic::power::pow(256, i)) % 256) as u8,
    decreases n,
{
    lemma_le_bytes_len(x, n);
    if i == 0 {
        assert(vstd::arithmetic::power::pow(256, 0) == 1) by {
            vstd::arithmetic::power::lemma_pow0(256);
        }
    } else {
        lemma_le_bytes_digits(x / 256, (n - 1) as nat, (i - 1) as nat);
        lemma_le_bytes_len(x / 256, (n - 1) as nat);
        let rest = le_bytes(x / 256, (n - 1) as nat);
        assert(le_bytes(x, n)[i as int] == rest[i - 1]);
        let p = vstd::arithmetic::power::pow(256, (i - 1) as nat);
        vstd::arithmetic::power::lemma_pow_positive(256, (i - 1) as nat);
        assert(vstd::arithmetic::power::pow(256, i) == 256 * p) by {
            vstd::arithmetic::power::lemma_pow1(256);
            vstd::arithmetic::power::lemma_pow_adds(256, 1, (i - 1) as nat);
        }
        vstd::arithmetic::div_mod::lemma_div_denominator(x as int, 256, p);
        assert((x / 256) as int == x as int / 256);
    }
}

/// `le_bytes(x, n)` has `n` bytes.
pub proof fn lemma_le_bytes_len(x: nat, n: nat)
    ensures
        le_bytes(x, n).len() == n,
    decreases n,
{
    if n > 0 {
        lemma_le_bytes_len(x / 256, (n - 1) as nat);
    }
}

/// The seeds of an achievement's reward account: the program's reward
/// seed, then the achievement's address.
pub open spec fn reward_seeds(reward_seed: Seq<u8>, achievement: Pubkey) -> Seq<Seq<u8>> {
    seq![reward_seed, achievement.0@]
}

/// The address of the reward account of `achievement`, derived under this
/// program from `reward_seed` (the program's reward seed) and the
/// achievement's address.
pub fn reward_address(reward_seed: Vec<u8>, achievement: &Pubkey) -> (res: Option<Pubkey>)
    ensures
        res == derived_address(reward_seeds(reward_seed@, *achievement)),
{
    let ghost prefix = reward_seed@;
    let seeds = vec![reward_seed, key_bytes(achievement)];
    proof {
        assert(seeds@[0].deep_view() =~= prefix);
        assert(seeds@[1].deep_view() =~= achievement.0@);
        assert(seeds.deep_view() =~= reward_seeds(prefix, *achievement));
    }
    derive_address(&seeds)
}

/// The seeds of a game's next achievement: the program's achievement seed,
/// the game's address, then the next achievement's number in little-endian
/// bytes.
pub open spec fn achievement_seeds(achievement_seed: Seq<u8>, game: Pubkey, number: u64) -> Seq<Seq<u8>> {
    seq![achievement_seed, game.0@, le_bytes(number as nat, 8)]
}

/// The address of the achievement that is added next to `game`. The count
/// must be below its maximum, as for `next_achievement`.
pub fn achievement_address(achievement_seed: Vec<u8>, game: &Account<Game>) -> (res: Option<Pubkey>)
    requires
        game.data.achievement_count < u64::MAX,
    ensures
        res == derived_address(
            achievement_seeds(achievement_seed@, game.key, (game.data.achievement_count + 1) as u64),
        ),
{
    let ghost prefix = achievement_seed@;
    let number = next_achievement(game);
    let seeds = vec![achievement_seed, key_bytes(&game.key), u64_le_bytes(number)];
    proof {
        assert(seeds@[0].deep_view() =~= prefix);
        assert(seeds@[1].deep_view() =~= game.key.0@);
        assert(seeds@[2].deep_view() =~= le_bytes(number as nat, 8));
        assert(seeds.deep_view() =~= achievement_seeds(prefix, game.key, number));
    }
    derive_address(&seeds)
}

/// The seeds of a game's next leaderboard: the program's leaderboard seed,
/// the game's address, then the next leaderboard's number in little-endian
/// bytes.
pub open spec fn leaderboard_seeds(leaderboard_seed: Seq<u8>, game: Pubkey, number: u64) -> Seq<Seq<u8>> {
    seq![leaderboard_seed, game.0@, le_bytes(number as nat, 8)]
}

/// The address of the leaderboard that is added next to `game`. The count
/// must be below its maximum, as for `next_leaderboard`.
pub fn leaderboard_address(leaderboard_seed: Vec<u8>, game: &Account<Game>) -> (res: Option<Pubkey>)
    requires
        game.data.leaderboard_count < u64::MAX,
    ensures
        res == derived_address(
            leaderboard_seeds(leaderboard_seed@, game.key, (game.data.leaderboard_count + 1) as u64),
        ),
{
    let ghost prefix = leaderboard_seed@;
    let number = next_leaderboard(game);
    let seeds = vec![leaderboard_seed, key_bytes(&game.key), u64_le_bytes(number)];
    proof {
        assert(seeds@[0].deep_view() =~= prefix);
        assert(seeds@[1].deep_view() =~= game.key.0@);
        assert(seeds@[2].deep_view() =~= le_bytes(number as nat, 8));
        assert(seeds.deep_view() =~= leaderboard_seeds(prefix, game.key, number));
    }
    derive_address(&seeds)
}

/// Seeds made of a program seed followed by one address.
pub open spec fn one_key_seeds(seed: Seq<u8>, key: Pubkey) -> Seq<Seq<u8>> {
    seq![seed, key.0@]
}

/// Seeds made of a program seed followed by two addresses.
pub open spec fn two_key_seeds(seed: Seq<u8>, first: Pubkey, second: Pubkey) -> Seq<Seq<u8>> {
    seq![seed, first.0@, second.0@]
}

/// The address derived from `seed` and one address: the top-entries
/// account of a leaderboard (with the program's top-entries seed) or the
/// player account of a user (with the program's player seed).
pub fn one_key_address(seed: Vec<u8>, key: &Pubkey) -> (res: Option<Pubkey>)
    ensures
        res == derived_address(one_key_seeds(seed@, *key)),
{
    let ghost prefix = seed@;
    let seeds = vec![seed, key_bytes(key)];
    proof {
        assert(seeds@[0].deep_view() =~= prefix);
        assert(seeds@[1].deep_view() =~= key.0@);
        assert(seeds.deep_view() =~= one_key_seeds(prefix, *key));
    }
    derive_address(&seeds)
}

/// The address derived from `seed` and two addresses: the entry list of a
/// player on a leaderboard (with the program's entry seed) or the player
/// achievement of a player for an achievement (with the program's player
/// achievement seed).
pub fn two_key_address(seed: Vec<u8>, first: &Pubkey, second: &Pubkey) -> (res: Option<Pubkey>)
    ensures
        res == derived_address(two_key_seeds(seed@, *first, *second)),
{
    let ghost prefix = seed@;
    let seeds = vec![seed, key_bytes(first), key_bytes(second)];
    proof {
        assert(seeds@[0].deep_view() =~= prefix);
        assert(seeds@[1].deep_view() =~= first.0@);
        assert(seeds@[2].deep_view() =~= second.0@);
        assert(seeds.deep_view() =~= two_key_seeds(prefix, *first, *second));
    }
    derive_address(&seeds)
}

/// Different achievements have different reward seeds, so their rewards
/// live at different addresses whenever both derive one.
pub proof fn lemma_reward_seeds_distinct(seed: Seq<u8>, a: Pubkey, b: Pubkey)
    requires
        a != b,
    ensures
        reward_seeds(seed, a) != reward_seeds(seed, b),
{
    assert(reward_seeds(seed, a)[1] == a.0@);
    assert(reward_seeds(seed, b)[1] == b.0@);
    assert(a.0@ != b.0@) by {
        if a.0@ == b.0@ {
            assert(a.0 =~= b.0);
        }
    }
}

/// Seeds of two addresses depend on both and on their order: a player's
/// entry list on one leaderboard is not that of another player or of
/// another leaderboard.
pub proof fn lemma_two_key_seeds_distinct(seed: Seq<u8>, a: Pubkey, b: Pubkey, c: Pubkey, d: Pubkey)
    requires
        a != c || b != d,
    ensures
        two_key_seeds(seed, a, b) != two_key_seeds(seed, c, d),
{
    if a != c {
        assert(two_key_seeds(seed, a, b)[1] == a.0@);
        assert(two_key_seeds(seed, c, d)[1] == c.0@);
        if a.0@ == c.0@ {
            assert(a.0 =~= c.0);
        }
    } else {
        assert(two_key_seeds(seed, a, b)[2] == b.0@);
        assert(two_key_seeds(seed, c, d)[2] == d.0@);
        if b.0@ == d.0@ {
            assert(b.0 =~= d.0);
        }
    }
}

/// Consecutive achievement (or leaderboard) numbers give different seeds:
/// each new achievement of a game gets its own address.
pub proof fn lemma_numbered_seeds_distinct(seed: Seq<u8>, game: Pubkey, m: u64, n: u64)
    requires
        m != n,
    ensures
        achievement_seeds(seed, game, m) != achievement_seeds(seed, game, n),
        leaderboard_seeds(seed, game, m) != leaderboard_seeds(seed, game, n),
{
    let bm = le_bytes(m as nat, 8);
    let bn = le_bytes(n as nat, 8);
    assert(bm != bn) by {
        if bm == bn {
            assert forall|i: nat| i < 8 implies ((m as int / vstd::arithmetic::power::pow(256, i)) % 256)
                == ((n as int / vstd::arithmetic::power::pow(256, i)) % 256) by {
                lemma_le_bytes_digits(m as nat, 8, i);
                lemma_le_bytes_digits(n as nat, 8, i);
            }
            lemma_u64_from_digits(m, n);
        }
    }
    assert(achievement_seeds(seed, game, m)[2] == bm);
    assert(achievement_seeds(seed, game, n)[2] == bn);
    assert(leaderboard_seeds(seed, game, m)[2] == bm);
    assert(leaderboard_seeds(seed, game, n)[2] == bn);
}

/// Two `u64`s with the same eight base-256 digits are equal.
proof fn lemma_u64_from_digits(m: u64, n: u64)
    requires
        forall|i: nat| i < 8 ==> ((m as int / vstd::arithmetic::power::pow(256, i)) % 256)
            == ((n as int / vstd::arithmetic::power::pow(256, i)) % 256),
    ensures
        m == n,
{
    vstd::arithmetic::power::lemma_pow0(256);
    assert(vstd::arithmetic::power::pow(256, 1) == 256) by { vstd::arithmetic::power::lemma_pow1(256); }
    reveal_with_fuel(vstd::arithmetic::power::pow, 9);
    assert(((m as int / vstd::arithmetic::power::pow(256, 0)) % 256) == ((n as int / vstd::arithmetic::power::pow(256, 0)) % 256));
    assert(((m as int / vstd::arithmetic::power::pow(256, 1)) % 256) == ((n as int / vstd::arithmetic::power::pow(256, 1)) % 256));
    assert(((m as int / vstd::arithmetic::power::pow(256, 2)) % 256) == ((n as int / vstd::arithmetic::power::pow(256, 2)) % 256));
    assert(((m as int / vstd::arithmetic::power::pow(256, 3)) % 256) == ((n as int / vstd::arithmetic::power::pow(256, 3)) % 256));
    assert(((m as int / vstd::arithmetic::power::pow(256, 4)) % 256) == ((n as int / vstd::arithmetic::power::pow(256, 4)) % 256));
    assert(((m as int / vstd::arithmetic::power::pow(256, 5)) % 256) == ((n as int / vstd::arithmetic::power::pow(256, 5)) % 256));
    assert(((m as int / vstd::arithmetic::power::pow(256, 6)) % 256) == ((n as int / vstd::arithmetic::power::pow(256, 6)) % 256));
    assert(((m as int / vstd::arithmetic::power::pow(256, 7)) % 256) == ((n as int / vstd::arithmetic::power::pow(256, 7)) % 256));
    assert(m == n) by (bit_vector)
        requires
            (m / 1) % 256 == (n / 1) % 256,
            (m / 256) % 256 == (n / 256) % 256,
            (m / 65536) % 256 == (n / 65536) % 256,
            (m / 16777216) % 256 == (n / 16777216) % 256,
            (m / 4294967296) % 256 == (n / 4294967296) % 256,
            (m / 1099511627776) % 256 == (n / 1099511627776) % 256,
            (m / 281474976710656) % 256 == (n / 281474976710656) % 256,
            (m / 72057594037927936) % 256 == (n / 72057594037927936) % 256,
    ;
}

} // verus!
