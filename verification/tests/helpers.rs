use soar::program::{check_top_entries, dedup_input, next_achievement, next_leaderboard};
use soar::pubkey::Pubkey;
use soar::state::{Account, Game, LeaderBoard};

fn key(n: u8) -> Pubkey {
    Pubkey([n; 32])
}

fn game(auth: Vec<Pubkey>, achievements: u64, leaderboards: u64) -> Account<Game> {
    Account {
        key: key(200),
        is_writable: true,
        data: Game { auth, achievement_count: achievements, leaderboard_count: leaderboards },
    }
}

#[test]
fn pubkey_equality_compares_every_byte() {
    let a = key(1);
    let mut bytes = [1u8; 32];
    bytes[31] = 2;
    let b = Pubkey(bytes);
    let mut first = [1u8; 32];
    first[0] = 0;
    assert!(a == key(1));
    assert!(a != b);
    assert!(a != Pubkey(first));
}

#[test]
fn signer_on_authority_list() {
    let g = game(vec![key(1), key(2), key(3)], 0, 0);
    assert!(g.data.check_signer_is_authority(&key(1)));
    assert!(g.data.check_signer_is_authority(&key(3)));
    assert!(!g.data.check_signer_is_authority(&key(4)));
}

#[test]
fn empty_authority_list_admits_nobody() {
    let g = game(vec![], 0, 0);
    assert!(!g.data.check_signer_is_authority(&key(1)));
}

#[test]
fn next_counters_are_one_past_the_current() {
    let g = game(vec![], 0, 41);
    assert_eq!(next_achievement(&g), 1);
    assert_eq!(next_leaderboard(&g), 42);
    let g = game(vec![], u64::MAX - 1, u64::MAX - 1);
    assert_eq!(next_achievement(&g), u64::MAX);
    assert_eq!(next_leaderboard(&g), u64::MAX);
}

#[test]
fn top_entries_of_a_leaderboard() {
    let without = Account { key: key(10), is_writable: false, data: LeaderBoard { game: key(200), top_entries: None } };
    let with = Account { key: key(10), is_writable: false, data: LeaderBoard { game: key(200), top_entries: Some(key(11)) } };
    assert!(check_top_entries(&without, &key(11)));
    assert!(check_top_entries(&without, &key(12)));
    assert!(check_top_entries(&with, &key(11)));
    assert!(!check_top_entries(&with, &key(12)));
}

#[test]
fn dedup_drops_repeats_and_the_initiator() {
    let initiator = key(9);
    let input = vec![key(1), key(2), key(1), key(9), key(3), key(2), key(9)];
    let keys = dedup_input(&initiator, input);
    assert_eq!(keys, vec![key(1), key(2), key(3)]);
}

#[test]
fn dedup_of_nothing_or_only_the_initiator_is_empty() {
    assert!(dedup_input(&key(9), vec![]).is_empty());
    assert!(dedup_input(&key(9), vec![key(9), key(9)]).is_empty());
}

#[test]
fn dedup_twice_changes_nothing() {
    let initiator = key(5);
    let once = dedup_input(&initiator, vec![key(7), key(5), key(7), key(6)]);
    let twice = dedup_input(&initiator, once.clone());
    assert_eq!(once, twice);
    assert_eq!(once.len(), 2);
}

#[test]
fn dedup_ignores_order_as_a_set() {
    let initiator = key(5);
    let mut a = dedup_input(&initiator, vec![key(1), key(2), key(3)]);
    let mut b = dedup_input(&initiator, vec![key(3), key(3), key(2), key(1), key(5)]);
    a.sort_by_key(|k| k.0);
    b.sort_by_key(|k| k.0);
    assert_eq!(a, b);
}
