use anchor_lang::prelude::Pubkey as AnchorPubkey;
use soar::pda::{
    achievement_address, leaderboard_address, one_key_address, program_id, reward_address,
    two_key_address, u64_le_bytes,
};
use soar::state::{Account, Game};
use soar::pubkey::Pubkey;

#[test]
fn program_id_is_the_declared_address() {
    let declared: AnchorPubkey = "3UEaKjkjK2Lz6D4DqSEUHwtBsezL5RaNCeBSWStxyNU9".parse().unwrap();
    assert_eq!(program_id(), Pubkey(declared.to_bytes()));
}

#[test]
fn reward_address_is_the_program_derived_address() {
    let achievement = Pubkey([7; 32]);
    let program = AnchorPubkey::new_from_array(program_id().0);
    let (expected, _) = AnchorPubkey::find_program_address(&[b"reward", &[7u8; 32]], &program);
    let derived = reward_address(b"reward".to_vec(), &achievement).unwrap();
    assert_eq!(derived, Pubkey(expected.to_bytes()));
    assert!(derived != achievement);
}

#[test]
fn reward_addresses_differ_by_achievement_and_seed() {
    let a = reward_address(b"reward".to_vec(), &Pubkey([1; 32])).unwrap();
    let b = reward_address(b"reward".to_vec(), &Pubkey([2; 32])).unwrap();
    let c = reward_address(b"other".to_vec(), &Pubkey([1; 32])).unwrap();
    assert!(a != b);
    assert!(a != c);
    assert_eq!(a, reward_address(b"reward".to_vec(), &Pubkey([1; 32])).unwrap());
}

#[test]
fn achievement_and_leaderboard_addresses_use_the_next_number() {
    let game = Account {
        key: Pubkey([3; 32]),
        is_writable: true,
        data: Game { auth: vec![], achievement_count: 0x0102, leaderboard_count: 6 },
    };
    let program = AnchorPubkey::new_from_array(program_id().0);
    let (expected, _) = AnchorPubkey::find_program_address(
        &[b"achievement", &[3u8; 32], &0x0103u64.to_le_bytes()],
        &program,
    );
    assert_eq!(achievement_address(b"achievement".to_vec(), &game).unwrap(), Pubkey(expected.to_bytes()));
    let (expected, _) = AnchorPubkey::find_program_address(
        &[b"leader", &[3u8; 32], &7u64.to_le_bytes()],
        &program,
    );
    assert_eq!(leaderboard_address(b"leader".to_vec(), &game).unwrap(), Pubkey(expected.to_bytes()));
    assert_eq!(u64_le_bytes(0x0807060504030201), vec![1, 2, 3, 4, 5, 6, 7, 8]);
}

#[test]
fn one_and_two_key_addresses() {
    let program = AnchorPubkey::new_from_array(program_id().0);
    let (expected, _) = AnchorPubkey::find_program_address(&[b"player", &[4u8; 32]], &program);
    assert_eq!(one_key_address(b"player".to_vec(), &Pubkey([4; 32])).unwrap(), Pubkey(expected.to_bytes()));
    let (expected, _) = AnchorPubkey::find_program_address(&[b"entry", &[4u8; 32], &[5u8; 32]], &program);
    assert_eq!(
        two_key_address(b"entry".to_vec(), &Pubkey([4; 32]), &Pubkey([5; 32])).unwrap(),
        Pubkey(expected.to_bytes())
    );
    // The order of the two addresses matters.
    assert!(two_key_address(b"entry".to_vec(), &Pubkey([5; 32]), &Pubkey([4; 32])).unwrap()
        != Pubkey(expected.to_bytes()));
}
