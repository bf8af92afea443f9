use soar::accounts::{
    AddAchievement, AddLeaderBoard, AddReward, InitializeGame, InitiateMerge, MintReward,
    NewPlayer, RegisterMergeApproval, RegisterPlayer, SubmitScore, UnlockPlayerAchievement,
    UpdateAchievement, UpdateGame, UpdatePlayer, VerifyReward,
};
use soar::error::{evaluate, AccountsError, Check};
use soar::pubkey::Pubkey;
use soar::state::{
    Account, AccountInfo, Achievement, Game, LeaderBoard, NewAccount, Player, PlayerAchievement,
    PlayerEntryList, Reward,
};

fn key(n: u8) -> Pubkey {
    Pubkey([n; 32])
}

/// The token metadata program, `metaqbxxUerdq28cj1RbAWkYQm3ybzjb6a8bt518x1s`.
fn metadata_program() -> Pubkey {
    Pubkey([
        11, 112, 101, 177, 227, 209, 124, 69, 56, 157, 82, 127, 107, 4, 195, 205, 88, 184, 108,
        115, 26, 160, 253, 181, 73, 182, 209, 188, 3, 248, 41, 70,
    ])
}

const AUTHORITY: u8 = 1;
const USER: u8 = 2;
const PAYER: u8 = 5;
const GAME: u8 = 10;
const ACHIEVEMENT: u8 = 11;
const LEADERBOARD: u8 = 12;
const PLAYER: u8 = 13;
const ENTRIES: u8 = 14;
const REWARD: u8 = 15;
const TOP: u8 = 16;
const COLLECTION: u8 = 17;
const METADATA: u8 = 18;
const NEW: u8 = 30;
const OTHER: u8 = 99;

/// A signing, writable account.
fn signer(n: u8) -> AccountInfo {
    AccountInfo { key: key(n), is_signer: true, is_writable: true }
}

/// An account that neither signs nor may be written.
fn plain(n: u8) -> AccountInfo {
    AccountInfo { key: key(n), is_signer: false, is_writable: false }
}

fn unsigned(n: u8) -> AccountInfo {
    AccountInfo { key: key(n), is_signer: false, is_writable: true }
}

fn read_only(n: u8) -> AccountInfo {
    AccountInfo { key: key(n), is_signer: true, is_writable: false }
}

fn fresh(n: u8) -> NewAccount {
    NewAccount { key: key(n), in_use: false }
}

fn used(n: u8) -> NewAccount {
    NewAccount { key: key(n), in_use: true }
}

fn game() -> Account<Game> {
    Account {
        key: key(GAME),
        is_writable: true,
        data: Game { auth: vec![key(AUTHORITY), key(3)], achievement_count: 0, leaderboard_count: 0 },
    }
}

fn achievement(reward: Option<Pubkey>) -> Account<Achievement> {
    Account { key: key(ACHIEVEMENT), is_writable: true, data: Achievement { game: key(GAME), reward } }
}

fn leaderboard(top_entries: Option<Pubkey>) -> Account<LeaderBoard> {
    Account { key: key(LEADERBOARD), is_writable: false, data: LeaderBoard { game: key(GAME), top_entries } }
}

fn player() -> Account<Player> {
    Account { key: key(PLAYER), is_writable: true, data: Player { user: key(USER) } }
}

fn entries() -> Account<PlayerEntryList> {
    Account {
        key: key(ENTRIES),
        is_writable: true,
        data: PlayerEntryList { player_info: key(PLAYER), leaderboard: key(LEADERBOARD) },
    }
}

fn reward() -> Account<Reward> {
    Account {
        key: key(REWARD),
        is_writable: true,
        data: Reward { achievement: key(ACHIEVEMENT), collection_mint: Some(key(COLLECTION)) },
    }
}

fn player_achievement(metadata: Option<Pubkey>) -> Account<PlayerAchievement> {
    Account {
        key: key(20),
        is_writable: false,
        data: PlayerAchievement { player: key(PLAYER), achievement: key(ACHIEVEMENT), metadata },
    }
}

#[test]
fn evaluate_reports_the_first_failure() {
    assert_eq!(evaluate(&vec![]), Ok(()));
    let checks = vec![
        Check { passed: true, error: AccountsError::InvalidAuthority },
        Check { passed: false, error: AccountsError::ConstraintRaw },
        Check { passed: false, error: AccountsError::ConstraintHasOne },
    ];
    assert_eq!(evaluate(&checks), Err(AccountsError::ConstraintRaw));
}

#[test]
fn initialize_game_checks() {
    let ctx = InitializeGame { creator: signer(PAYER), game: fresh(GAME), system_program: plain(0) };
    assert_eq!(ctx.validate(), Ok(()));
    let ctx = InitializeGame { game: used(GAME), ..ctx };
    assert_eq!(ctx.validate(), Err(AccountsError::AccountAlreadyInUse));
    let ctx = InitializeGame { creator: unsigned(PAYER), ..ctx };
    assert_eq!(ctx.validate(), Err(AccountsError::AccountNotSigner));
    let ctx = InitializeGame { creator: read_only(PAYER), game: fresh(GAME), system_program: plain(0) };
    assert_eq!(ctx.validate(), Err(AccountsError::ConstraintMut));
}

#[test]
fn update_game_needs_a_listed_signing_authority() {
    let ctx = UpdateGame { authority: signer(AUTHORITY), payer: signer(PAYER), game: game(), system_program: plain(0) };
    assert_eq!(ctx.validate(), Ok(()));
    let ctx = UpdateGame { authority: signer(3), ..ctx };
    assert_eq!(ctx.validate(), Ok(()));
    let ctx = UpdateGame { authority: signer(OTHER), ..ctx };
    assert_eq!(ctx.validate(), Err(AccountsError::InvalidAuthority));
    // The signature is checked before the list.
    let ctx = UpdateGame { authority: unsigned(OTHER), ..ctx };
    assert_eq!(ctx.validate(), Err(AccountsError::AccountNotSigner));
    let mut frozen = game();
    frozen.is_writable = false;
    let ctx = UpdateGame { authority: signer(AUTHORITY), game: frozen, ..ctx };
    assert_eq!(ctx.validate(), Err(AccountsError::ConstraintMut));
}

#[test]
fn add_achievement_checks() {
    let ctx = AddAchievement {
        authority: signer(AUTHORITY),
        payer: signer(PAYER),
        game: game(),
        new_achievement: fresh(NEW),
        system_program: plain(0),
    };
    assert_eq!(ctx.validate(&key(NEW)), Ok(()));
    assert_eq!(ctx.validate(&key(OTHER)), Err(AccountsError::ConstraintSeeds));
    let ctx = AddAchievement { new_achievement: used(NEW), ..ctx };
    assert_eq!(ctx.validate(&key(NEW)), Err(AccountsError::AccountAlreadyInUse));
    // The new account comes before the authority check.
    let ctx = AddAchievement { authority: signer(OTHER), ..ctx };
    assert_eq!(ctx.validate(&key(NEW)), Err(AccountsError::AccountAlreadyInUse));
    let ctx = AddAchievement { new_achievement: fresh(NEW), ..ctx };
    assert_eq!(ctx.validate(&key(NEW)), Err(AccountsError::InvalidAuthority));
}

#[test]
fn update_achievement_checks() {
    let ctx = UpdateAchievement { authority: signer(AUTHORITY), game: game(), achievement: achievement(None) };
    assert_eq!(ctx.validate(), Ok(()));
    let mut foreign = achievement(None);
    foreign.data.game = key(OTHER);
    let ctx = UpdateAchievement { achievement: foreign, ..ctx };
    assert_eq!(ctx.validate(), Err(AccountsError::ConstraintHasOne));
    // Both checks fail: the authority check comes first.
    let ctx = UpdateAchievement { authority: signer(OTHER), ..ctx };
    assert_eq!(ctx.validate(), Err(AccountsError::InvalidAuthority));
    let mut frozen = achievement(None);
    frozen.is_writable = false;
    let ctx = UpdateAchievement { authority: signer(AUTHORITY), game: game(), achievement: frozen };
    assert_eq!(ctx.validate(), Err(AccountsError::ConstraintMut));
}

fn add_leaderboard() -> AddLeaderBoard {
    AddLeaderBoard {
        authority: signer(AUTHORITY),
        payer: signer(PAYER),
        game: game(),
        leaderboard: fresh(LEADERBOARD),
        top_entries: Some(fresh(TOP)),
        system_program: plain(0),
    }
}

#[test]
fn add_leaderboard_with_top_entries_must_retain_scores() {
    let (board, top) = (key(LEADERBOARD), key(TOP));
    assert_eq!(add_leaderboard().validate(10, &board, &top), Ok(()));
    assert_eq!(add_leaderboard().validate(1, &board, &top), Ok(()));
    assert_eq!(add_leaderboard().validate(0, &board, &top), Err(AccountsError::ConstraintRaw));
    let ctx = AddLeaderBoard { top_entries: None, ..add_leaderboard() };
    assert_eq!(ctx.validate(0, &board, &top), Ok(()));
    // Without a top-entries account its address does not matter.
    assert_eq!(ctx.validate(0, &board, &key(OTHER)), Ok(()));
    assert_eq!(add_leaderboard().validate(3, &board, &key(OTHER)), Err(AccountsError::ConstraintSeeds));
    assert_eq!(add_leaderboard().validate(3, &key(OTHER), &top), Err(AccountsError::ConstraintSeeds));
    let ctx = AddLeaderBoard { top_entries: Some(used(TOP)), ..add_leaderboard() };
    assert_eq!(ctx.validate(3, &board, &top), Err(AccountsError::AccountAlreadyInUse));
}

#[test]
fn add_leaderboard_checks_the_new_top_entries_before_the_authority() {
    let ctx = AddLeaderBoard { authority: signer(OTHER), ..add_leaderboard() };
    let (board, top) = (key(LEADERBOARD), key(TOP));
    assert_eq!(ctx.validate(0, &board, &top), Err(AccountsError::ConstraintRaw));
    assert_eq!(ctx.validate(3, &board, &top), Err(AccountsError::InvalidAuthority));
}

#[test]
fn create_and_update_player() {
    let ctx = NewPlayer { payer: signer(PAYER), user: signer(USER), player_info: fresh(PLAYER), system_program: plain(0) };
    assert_eq!(ctx.validate(&key(PLAYER)), Ok(()));
    assert_eq!(ctx.validate(&key(OTHER)), Err(AccountsError::ConstraintSeeds));
    let ctx = NewPlayer { player_info: used(PLAYER), ..ctx };
    assert_eq!(ctx.validate(&key(PLAYER)), Err(AccountsError::AccountAlreadyInUse));
    let ctx = NewPlayer { user: unsigned(USER), ..ctx };
    assert_eq!(ctx.validate(&key(PLAYER)), Err(AccountsError::AccountNotSigner));

    let ctx = UpdatePlayer { user: signer(USER), player_info: player() };
    assert_eq!(ctx.validate(), Ok(()));
    let ctx = UpdatePlayer { user: unsigned(USER), ..ctx };
    assert_eq!(ctx.validate(), Err(AccountsError::AccountNotSigner));
    let mut frozen = player();
    frozen.is_writable = false;
    let ctx = UpdatePlayer { user: signer(USER), player_info: frozen };
    assert_eq!(ctx.validate(), Err(AccountsError::ConstraintMut));
}

fn register_player() -> RegisterPlayer {
    RegisterPlayer {
        payer: signer(PAYER),
        user: signer(USER),
        player_info: player(),
        game: game(),
        leaderboard: leaderboard(None),
        new_list: fresh(ENTRIES),
        system_program: plain(0),
    }
}

#[test]
fn register_player_checks_user_and_game() {
    let list = key(ENTRIES);
    assert_eq!(register_player().validate(&list), Ok(()));
    let ctx = RegisterPlayer { user: signer(OTHER), ..register_player() };
    assert_eq!(ctx.validate(&list), Err(AccountsError::ConstraintHasOne));
    let mut other_board = leaderboard(None);
    other_board.data.game = key(OTHER);
    let ctx = RegisterPlayer { leaderboard: other_board, ..register_player() };
    assert_eq!(ctx.validate(&list), Err(AccountsError::ConstraintHasOne));
}

#[test]
fn a_player_registers_once_per_leaderboard() {
    let list = key(ENTRIES);
    let again = RegisterPlayer { new_list: used(ENTRIES), ..register_player() };
    assert_eq!(again.validate(&list), Err(AccountsError::AccountAlreadyInUse));
    assert_eq!(register_player().validate(&key(OTHER)), Err(AccountsError::ConstraintSeeds));
}

fn submit_score() -> SubmitScore {
    SubmitScore {
        user: signer(USER),
        payer: signer(PAYER),
        authority: signer(AUTHORITY),
        player_info: player(),
        game: game(),
        leaderboard: leaderboard(Some(key(TOP))),
        top_entries: Some(unsigned(TOP)),
        player_entries: entries(),
        system_program: plain(0),
    }
}

#[test]
fn submit_score_accepts_matching_accounts() {
    assert_eq!(submit_score().validate(), Ok(()));
    let ctx = SubmitScore { top_entries: None, ..submit_score() };
    assert_eq!(ctx.validate(), Ok(()));
    let ctx = SubmitScore { leaderboard: leaderboard(None), top_entries: Some(unsigned(OTHER)), ..submit_score() };
    assert_eq!(ctx.validate(), Ok(()));
}

#[test]
fn submit_score_refusals() {
    let ctx = SubmitScore { authority: signer(OTHER), ..submit_score() };
    assert_eq!(ctx.validate(), Err(AccountsError::InvalidAuthority));
    let ctx = SubmitScore { user: signer(OTHER), ..submit_score() };
    assert_eq!(ctx.validate(), Err(AccountsError::ConstraintHasOne));
    let ctx = SubmitScore { top_entries: Some(unsigned(OTHER)), ..submit_score() };
    assert_eq!(ctx.validate(), Err(AccountsError::ConstraintRaw));
    let ctx = SubmitScore { top_entries: Some(plain(TOP)), ..submit_score() };
    assert_eq!(ctx.validate(), Err(AccountsError::ConstraintMut));
    let mut list = entries();
    list.data.leaderboard = key(OTHER);
    let ctx = SubmitScore { player_entries: list, ..submit_score() };
    assert_eq!(ctx.validate(), Err(AccountsError::ConstraintHasOne));
    let ctx = SubmitScore { user: unsigned(USER), ..submit_score() };
    assert_eq!(ctx.validate(), Err(AccountsError::AccountNotSigner));
    // The payer must be writable, which is checked before the authority.
    let ctx = SubmitScore { payer: read_only(PAYER), authority: signer(OTHER), ..submit_score() };
    assert_eq!(ctx.validate(), Err(AccountsError::ConstraintMut));
}

#[test]
fn merge_instructions_check_the_signing_user() {
    let ctx = InitiateMerge {
        payer: signer(PAYER),
        user: signer(USER),
        player: player(),
        merge_account: fresh(40),
        system_program: plain(0),
    };
    assert_eq!(ctx.validate(), Ok(()));
    let ctx = InitiateMerge { user: signer(OTHER), ..ctx };
    assert_eq!(ctx.validate(), Err(AccountsError::ConstraintHasOne));
    let ctx = InitiateMerge { user: unsigned(USER), ..ctx };
    assert_eq!(ctx.validate(), Err(AccountsError::AccountNotSigner));
    let ctx = InitiateMerge { user: signer(USER), merge_account: used(40), ..ctx };
    assert_eq!(ctx.validate(), Err(AccountsError::AccountAlreadyInUse));

    let ctx = RegisterMergeApproval { user: signer(USER), player_info: player(), merge_account: unsigned(40) };
    assert_eq!(ctx.validate(), Ok(()));
    let ctx = RegisterMergeApproval { user: signer(OTHER), ..ctx };
    assert_eq!(ctx.validate(), Err(AccountsError::ConstraintHasOne));
    let ctx = RegisterMergeApproval { user: unsigned(USER), ..ctx };
    assert_eq!(ctx.validate(), Err(AccountsError::AccountNotSigner));
    let ctx = RegisterMergeApproval { user: signer(USER), player_info: player(), merge_account: plain(40) };
    assert_eq!(ctx.validate(), Err(AccountsError::ConstraintMut));
}

fn unlock() -> UnlockPlayerAchievement {
    UnlockPlayerAchievement {
        authority: signer(AUTHORITY),
        payer: signer(PAYER),
        user: signer(USER),
        player_info: player(),
        player_entry: entries(),
        leaderboard: leaderboard(None),
        game: game(),
        achievement: achievement(None),
        player_achievement: fresh(20),
        system_program: plain(0),
    }
}

#[test]
fn unlock_needs_an_entry_in_the_game() {
    let at = key(20);
    assert_eq!(unlock().validate(&at), Ok(()));
    let mut list = entries();
    list.data.player_info = key(OTHER);
    let ctx = UnlockPlayerAchievement { player_entry: list, ..unlock() };
    assert_eq!(ctx.validate(&at), Err(AccountsError::ConstraintHasOne));
    let mut foreign = achievement(None);
    foreign.data.game = key(OTHER);
    let ctx = UnlockPlayerAchievement { achievement: foreign, ..unlock() };
    assert_eq!(ctx.validate(&at), Err(AccountsError::ConstraintHasOne));
    let ctx = UnlockPlayerAchievement { authority: signer(OTHER), ..unlock() };
    assert_eq!(ctx.validate(&at), Err(AccountsError::InvalidAuthority));
    let ctx = UnlockPlayerAchievement { player_achievement: used(20), ..unlock() };
    assert_eq!(ctx.validate(&at), Err(AccountsError::AccountAlreadyInUse));
}

fn add_reward() -> AddReward {
    AddReward {
        authority: signer(AUTHORITY),
        payer: signer(PAYER),
        game: game(),
        achievement: achievement(None),
        new_reward: fresh(REWARD),
        collection_update_auth: None,
        collection_mint: None,
        collection_metadata: None,
        system_program: plain(0),
        token_metadata_program: plain(0),
    }
}

fn add_reward_ok() -> AddReward {
    let mut ctx = add_reward();
    ctx.token_metadata_program.key = metadata_program();
    ctx
}

#[test]
fn add_reward_needs_the_token_metadata_program() {
    let at = key(REWARD);
    assert_eq!(add_reward_ok().validate(&at), Ok(()));
    assert_eq!(add_reward().validate(&at), Err(AccountsError::ConstraintAddress));
    let ctx = AddReward { authority: signer(OTHER), ..add_reward_ok() };
    assert_eq!(ctx.validate(&at), Err(AccountsError::InvalidAuthority));
    let ctx = AddReward { collection_update_auth: Some(unsigned(40)), ..add_reward_ok() };
    assert_eq!(ctx.validate(&at), Err(AccountsError::AccountNotSigner));
    let ctx = AddReward { collection_metadata: Some(plain(41)), ..add_reward_ok() };
    assert_eq!(ctx.validate(&at), Err(AccountsError::ConstraintMut));
}

#[test]
fn an_achievement_gets_at_most_one_reward() {
    let at = key(REWARD);
    let again = AddReward { new_reward: used(REWARD), ..add_reward_ok() };
    assert_eq!(again.validate(&at), Err(AccountsError::AccountAlreadyInUse));
    assert_eq!(add_reward_ok().validate(&key(OTHER)), Err(AccountsError::ConstraintSeeds));
}

fn mint_reward() -> MintReward {
    MintReward {
        payer: signer(PAYER),
        authority: signer(AUTHORITY),
        user: plain(USER),
        game: game(),
        achievement: achievement(Some(key(REWARD))),
        reward: reward(),
        player: player(),
        player_achievement: player_achievement(None),
        mint: signer(50),
        metadata: unsigned(51),
        master_edition: unsigned(52),
        mint_nft_to: unsigned(53),
        token_program: plain(54),
        associated_token_program: plain(55),
        token_metadata_program: AccountInfo { key: metadata_program(), is_signer: false, is_writable: false },
        system_program: plain(0),
        rent: plain(56),
    }
}

#[test]
fn mint_reward_checks() {
    assert_eq!(mint_reward().validate(), Ok(()));
    let ctx = MintReward { achievement: achievement(Some(key(OTHER))), ..mint_reward() };
    assert_eq!(ctx.validate(), Err(AccountsError::ConstraintRaw));
    let ctx = MintReward { user: plain(OTHER), ..mint_reward() };
    assert_eq!(ctx.validate(), Err(AccountsError::ConstraintHasOne));
    let ctx = MintReward { token_metadata_program: plain(OTHER), ..mint_reward() };
    assert_eq!(ctx.validate(), Err(AccountsError::ConstraintAddress));
    let ctx = MintReward { mint: unsigned(50), ..mint_reward() };
    assert_eq!(ctx.validate(), Err(AccountsError::AccountNotSigner));
    let ctx = MintReward { metadata: plain(51), ..mint_reward() };
    assert_eq!(ctx.validate(), Err(AccountsError::ConstraintMut));
    // An achievement without a reward is refused earlier by the authority check.
    let ctx = MintReward { authority: signer(OTHER), achievement: achievement(None), ..mint_reward() };
    assert_eq!(ctx.validate(), Err(AccountsError::InvalidAuthority));
}

fn verify_reward() -> VerifyReward {
    VerifyReward {
        payer: signer(PAYER),
        authority: signer(AUTHORITY),
        game: game(),
        achievement: achievement(Some(key(REWARD))),
        reward: reward(),
        user: plain(USER),
        player: player(),
        player_achievement: player_achievement(Some(key(METADATA))),
        metadata_to_verify: plain(METADATA),
        collection_mint: plain(COLLECTION),
        collection_metadata: unsigned(60),
        collection_master_edition: plain(61),
    }
}

#[test]
fn verify_reward_checks() {
    let at = key(REWARD);
    assert_eq!(verify_reward().validate(&at), Ok(()));
    let ctx = VerifyReward { collection_mint: plain(OTHER), ..verify_reward() };
    assert_eq!(ctx.validate(&at), Err(AccountsError::ConstraintRaw));
    let mut uncollected = reward();
    uncollected.data.collection_mint = None;
    let ctx = VerifyReward { reward: uncollected, ..verify_reward() };
    assert_eq!(ctx.validate(&at), Err(AccountsError::ConstraintRaw));
    let ctx = VerifyReward { metadata_to_verify: plain(OTHER), ..verify_reward() };
    assert_eq!(ctx.validate(&at), Err(AccountsError::ConstraintRaw));
    let mut stray = reward();
    stray.data.achievement = key(OTHER);
    let ctx = VerifyReward { reward: stray, ..verify_reward() };
    assert_eq!(ctx.validate(&at), Err(AccountsError::ConstraintHasOne));
    let ctx = VerifyReward { collection_metadata: plain(60), ..verify_reward() };
    assert_eq!(ctx.validate(&at), Err(AccountsError::ConstraintMut));
    // The user check fails before the metadata of a player achievement
    // without one is looked at.
    let ctx = VerifyReward {
        user: plain(OTHER),
        player_achievement: player_achievement(None),
        ..verify_reward()
    };
    assert_eq!(ctx.validate(&at), Err(AccountsError::ConstraintHasOne));
}

#[test]
fn verify_reward_needs_the_reward_at_its_derived_address() {
    let elsewhere = key(OTHER);
    assert_eq!(verify_reward().validate(&elsewhere), Err(AccountsError::ConstraintSeeds));
    // The address check on the reward comes after the achievement's own
    // checks and before the reward's `has_one`.
    let mut stray = reward();
    stray.data.achievement = key(OTHER);
    let ctx = VerifyReward { reward: stray, ..verify_reward() };
    assert_eq!(ctx.validate(&elsewhere), Err(AccountsError::ConstraintSeeds));
    let ctx = VerifyReward { achievement: achievement(Some(key(OTHER))), ..verify_reward() };
    assert_eq!(ctx.validate(&elsewhere), Err(AccountsError::ConstraintRaw));
}
