//! The accounts that each instruction takes, and the checks that the
//! program declares on them. Each `checks` lists the declared checks in the
//! order in which they run:
//!
//! 1. the signatures of the signer accounts, in field order;
//! 2. the accounts that the instruction creates, in field order: each must
//!    sit at the address that its seeds derive (where it has seeds), must not
//!    be in use already, and then meet its plain constraints;
//! 3. the other accounts, in field order; on one account, a seeds check
//!    comes first, then the writable check, then its `has_one` checks, then
//!    its plain constraints, then an address check.
//!
//! Each `validate` runs them in that order and reports the first one that
//! fails. Where seeds derive an address, `validate` takes that address; the
//! functions of `pda` derive it.
//!
//! Not modelled here: that accounts with data are owned by this program and
//! hold data of the right kind, that program accounts are the named
//! programs, the rent sysvar, and of account creation anything beyond the
//! address and the account being unused (the payer's funds, the signature
//! that creating an account without seeds needs).
use vstd::prelude::*;

use crate::error::{evaluate, outcome, reaches, AccountsError, Check};
use crate::program::{check_top_entries, top_entries_match};
use crate::pubkey::Pubkey;
use crate::state::{
    Account, AccountInfo, Achievement, Game, LeaderBoard, NewAccount, Player, PlayerAchievement,
    PlayerEntryList, Reward,
};

verus! {

/// A signer account must have signed.
pub open spec fn signer(account: AccountInfo) -> Check {
    Check { passed: account.is_signer, error: AccountsError::AccountNotSigner }
}

/// An optional signer account, when given, must have signed.
pub open spec fn optional_signer(account: Option<AccountInfo>) -> Check {
    Check {
        passed: match account {
            Some(a) => a.is_signer,
            None => true,
        },
        error: AccountsError::AccountNotSigner,
    }
}

/// An account declared `mut` must be writable.
pub open spec fn writable(is_writable: bool) -> Check {
    Check { passed: is_writable, error: AccountsError::ConstraintMut }
}

/// An optional account declared `mut`, when given, must be writable.
pub open spec fn optional_writable(account: Option<AccountInfo>) -> Check {
    Check {
        passed: match account {
            Some(a) => a.is_writable,
            None => true,
        },
        error: AccountsError::ConstraintMut,
    }
}

/// An account must sit at the address that its seeds derive.
pub open spec fn seeds(key: Pubkey, derived: Pubkey) -> Check {
    Check { passed: key == derived, error: AccountsError::ConstraintSeeds }
}

/// An account to create must not be in use already.
pub open spec fn creation(account: NewAccount) -> Check {
    Check { passed: !account.in_use, error: AccountsError::AccountAlreadyInUse }
}

/// An optional account to create, when given, must sit at the address that
/// its seeds derive.
pub open spec fn optional_seeds(account: Option<NewAccount>, derived: Pubkey) -> Check {
    Check {
        passed: match account {
            Some(a) => a.key == derived,
            None => true,
        },
        error: AccountsError::ConstraintSeeds,
    }
}

/// An optional account to create, when given, must not be in use already.
pub open spec fn optional_creation(account: Option<NewAccount>) -> Check {
    Check {
        passed: match account {
            Some(a) => !a.in_use,
            None => true,
        },
        error: AccountsError::AccountAlreadyInUse,
    }
}

/// The signer must be on the game's authority list.
pub open spec fn authority_check(game: Game, authority: Pubkey) -> Check {
    Check { passed: game.auth@.contains(authority), error: AccountsError::InvalidAuthority }
}

/// An account's data must name the expected account (`has_one`).
pub open spec fn has_one(named: Pubkey, expected: Pubkey) -> Check {
    Check { passed: named == expected, error: AccountsError::ConstraintHasOne }
}

/// A declared `constraint = ..` expression.
pub open spec fn raw(passed: bool) -> Check {
    Check { passed, error: AccountsError::ConstraintRaw }
}

/// An account must sit at the given address.
pub open spec fn address(key: Pubkey, expected: Pubkey) -> Check {
    Check { passed: key == expected, error: AccountsError::ConstraintAddress }
}

fn signer_exec(account: &AccountInfo) -> (res: Check)
    ensures
        res == signer(*account),
{
    Check { passed: account.is_signer, error: AccountsError::AccountNotSigner }
}

fn optional_signer_exec(account: &Option<AccountInfo>) -> (res: Check)
    ensures
        res == optional_signer(*account),
{
    let passed = match account {
        Some(a) => a.is_signer,
        None => true,
    };
    Check { passed, error: AccountsError::AccountNotSigner }
}

fn writable_exec(is_writable: bool) -> (res: Check)
    ensures
        res == writable(is_writable),
{
    Check { passed: is_writable, error: AccountsError::ConstraintMut }
}

fn optional_writable_exec(account: &Option<AccountInfo>) -> (res: Check)
    ensures
        res == optional_writable(*account),
{
    let passed = match account {
        Some(a) => a.is_writable,
        None => true,
    };
    Check { passed, error: AccountsError::ConstraintMut }
}

fn seeds_exec(key: &Pubkey, derived: &Pubkey) -> (res: Check)
    ensures
        res == seeds(*key, *derived),
{
    Check { passed: *key == *derived, error: AccountsError::ConstraintSeeds }
}

fn creation_exec(account: &NewAccount) -> (res: Check)
    ensures
        res == creation(*account),
{
    Check { passed: !account.in_use, error: AccountsError::AccountAlreadyInUse }
}

fn optional_seeds_exec(account: &Option<NewAccount>, derived: &Pubkey) -> (res: Check)
    ensures
        res == optional_seeds(*account, *derived),
{
    let passed = match account {
        Some(a) => a.key == *derived,
        None => true,
    };
    Check { passed, error: AccountsError::ConstraintSeeds }
}

fn optional_creation_exec(account: &Option<NewAccount>) -> (res: Check)
    ensures
        res == optional_creation(*account),
{
    let passed = match account {
        Some(a) => !a.in_use,
        None => true,
    };
    Check { passed, error: AccountsError::AccountAlreadyInUse }
}

fn authority_check_exec(game: &Game, authority: &Pubkey) -> (res: Check)
    ensures
        res == authority_check(*game, *authority),
{
    Check { passed: game.check_signer_is_authority(authority), error: AccountsError::InvalidAuthority }
}

fn has_one_exec(named: &Pubkey, expected: &Pubkey) -> (res: Check)
    ensures
        res == has_one(*named, *expected),
{
    Check { passed: *named == *expected, error: AccountsError::ConstraintHasOne }
}

fn raw_exec(passed: bool) -> (res: Check)
    ensures
        res == raw(passed),
{
    Check { passed, error: AccountsError::ConstraintRaw }
}

fn address_exec(key: &Pubkey, expected: &Pubkey) -> (res: Check)
    ensures
        res == address(*key, *expected),
{
    Check { passed: *key == *expected, error: AccountsError::ConstraintAddress }
}

/// Whether `opt` holds `key`.
fn holds(opt: &Option<Pubkey>, key: &Pubkey) -> (res: bool)
    ensures
        res == (*opt == Some(*key)),
{
    match opt {
        Some(k) => *k == *key,
        None => false,
    }
}

/// The address of the token metadata program,
/// `metaqbxxUerdq28cj1RbAWkYQm3ybzjb6a8bt518x1s`, as bytes.
pub open spec fn token_metadata_program_key() -> Pubkey {
    Pubkey(
        [
            11u8, 112, 101, 177, 227, 209, 124, 69, 56, 157, 82, 127, 107, 4, 195, 205, 88, 184,
            108, 115, 26, 160, 253, 181, 73, 182, 209, 188, 3, 248, 41, 70,
        ],
    )
}

/// `mpl_token_metadata::ID`, the address of the token metadata program.
/// Claimed: it is the base58 address `metaqbxxUerdq28cj1RbAWkYQm3ybzjb6a8bt518x1s`
/// that the crate declares, decoded to its 32 bytes.
#[verifier::external_body]
fn token_metadata_program_id() -> (res: Pubkey)
    ensures
        res == token_metadata_program_key(),
{
    Pubkey(mpl_token_metadata::ID.to_bytes())
}

/// Accounts of `initialize_game`.
pub struct InitializeGame {
    pub creator: AccountInfo,
    pub game: NewAccount,
    pub system_program: AccountInfo,
}

impl InitializeGame {
    pub open spec fn checks(&self) -> Seq<Check> {
        seq![
            signer(self.creator),
            creation(self.game),
            writable(self.creator.is_writable),
        ]
    }

    /// Runs the declared checks: the creator must sign, the game account must
    /// not be in use, and the creator must be writable.
    pub fn validate(&self) -> (res: Result<(), AccountsError>)
        ensures
            res == outcome(self.checks()),
    {
        let checks = vec![
            signer_exec(&self.creator),
            creation_exec(&self.game),
            writable_exec(self.creator.is_writable),
        ];
        proof {
            assert(checks@ =~= self.checks());
        }
        evaluate(&checks)
    }
}

/// Accounts of `update_game`.
pub struct UpdateGame {
    pub authority: AccountInfo,
    pub payer: AccountInfo,
    pub game: Account<Game>,
    pub system_program: AccountInfo,
}

impl UpdateGame {
    pub open spec fn checks(&self) -> Seq<Check> {
        seq![
            signer(self.authority),
            signer(self.payer),
            authority_check(self.game.data, self.authority.key),
            writable(self.payer.is_writable),
            writable(self.game.is_writable),
        ]
    }

    /// Runs the declared checks: the authority and the payer must sign, the
    /// authority must be on the game's list, and the payer and the game must be
    /// writable.
    pub fn validate(&self) -> (res: Result<(), AccountsError>)
        ensures
            res == outcome(self.checks()),
    {
        let checks = vec![
            signer_exec(&self.authority),
            signer_exec(&self.payer),
            authority_check_exec(&self.game.data, &self.authority.key),
            writable_exec(self.payer.is_writable),
            writable_exec(self.game.is_writable),
        ];
        proof {
            assert(checks@ =~= self.checks());
        }
        evaluate(&checks)
    }
}

/// Accounts of `add_achievement`.
pub struct AddAchievement {
    pub authority: AccountInfo,
    pub payer: AccountInfo,
    pub game: Account<Game>,
    pub new_achievement: NewAccount,
    pub system_program: AccountInfo,
}

impl AddAchievement {
    pub open spec fn checks(&self, achievement_address: Pubkey) -> Seq<Check> {
        seq![
            signer(self.authority),
            signer(self.payer),
            seeds(self.new_achievement.key, achievement_address),
            creation(self.new_achievement),
            authority_check(self.game.data, self.authority.key),
            writable(self.payer.is_writable),
            writable(self.game.is_writable),
        ]
    }

    /// Runs the declared checks: the authority and the payer must sign, the new
    /// achievement must sit at `achievement_address` (the address that its
    /// seeds derive from the game and its next achievement number, see
    /// `pda::achievement_address`) and not be in use, the authority must be on
    /// the game's list, and the payer and the game must be writable. The next
    /// achievement number must fit where the new account is reached: the
    /// instruction aborts there otherwise.
    pub fn validate(&self, achievement_address: &Pubkey) -> (res: Result<(), AccountsError>)
        requires
            reaches(self.checks(*achievement_address), 2) ==> self.game.data.achievement_count < u64::MAX,
        ensures
            res == outcome(self.checks(*achievement_address)),
    {
        let checks = vec![
            signer_exec(&self.authority),
            signer_exec(&self.payer),
            seeds_exec(&self.new_achievement.key, achievement_address),
            creation_exec(&self.new_achievement),
            authority_check_exec(&self.game.data, &self.authority.key),
            writable_exec(self.payer.is_writable),
            writable_exec(self.game.is_writable),
        ];
        proof {
            assert(checks@ =~= self.checks(*achievement_address));
        }
        evaluate(&checks)
    }
}

/// Accounts of `update_achievement`.
pub struct UpdateAchievement {
    pub authority: AccountInfo,
    pub game: Account<Game>,
    pub achievement: Account<Achievement>,
}

impl UpdateAchievement {
    pub open spec fn checks(&self) -> Seq<Check> {
        seq![
            signer(self.authority),
            authority_check(self.game.data, self.authority.key),
            writable(self.achievement.is_writable),
            has_one(self.achievement.data.game, self.game.key),
        ]
    }

    /// Runs the declared checks: the authority must sign and be on the game's
    /// list, and the achievement must be writable and belong to the game.
    pub fn validate(&self) -> (res: Result<(), AccountsError>)
        ensures
            res == outcome(self.checks()),
    {
        let checks = vec![
            signer_exec(&self.authority),
            authority_check_exec(&self.game.data, &self.authority.key),
            writable_exec(self.achievement.is_writable),
            has_one_exec(&self.achievement.data.game, &self.game.key),
        ];
        proof {
            assert(checks@ =~= self.checks());
        }
        evaluate(&checks)
    }
}

/// Accounts of `add_leaderboard`.
pub struct AddLeaderBoard {
    pub authority: AccountInfo,
    pub payer: AccountInfo,
    pub game: Account<Game>,
    pub leaderboard: NewAccount,
    /// The top-entries account to create, when the leaderboard keeps one.
    pub top_entries: Option<NewAccount>,
    pub system_program: AccountInfo,
}

impl AddLeaderBoard {
    pub open spec fn checks(&self, scores_to_retain: u8, leaderboard_address: Pubkey, top_entries_address: Pubkey) -> Seq<Check> {
        seq![
            signer(self.authority),
            signer(self.payer),
            seeds(self.leaderboard.key, leaderboard_address),
            creation(self.leaderboard),
            optional_seeds(self.top_entries, top_entries_address),
            optional_creation(self.top_entries),
            raw(self.top_entries is None || scores_to_retain > 0),
            authority_check(self.game.data, self.authority.key),
            writable(self.payer.is_writable),
            writable(self.game.is_writable),
        ]
    }

    /// Runs the declared checks: the authority and the payer must sign; the new
    /// leaderboard must sit at `leaderboard_address` (see
    /// `pda::leaderboard_address`) and not be in use; a top-entries account,
    /// when given, must sit at `top_entries_address` (derived from the
    /// leaderboard's address, see `pda::one_key_address`), not be in use, and
    /// the leaderboard must then retain at least one score (`scores_to_retain`
    /// is the instruction input's); the authority must be on the game's list;
    /// the payer and the game must be writable. The next leaderboard number
    /// must fit where the new leaderboard is reached: the instruction aborts
    /// there otherwise.
    pub fn validate(&self, scores_to_retain: u8, leaderboard_address: &Pubkey, top_entries_address: &Pubkey) -> (res: Result<(), AccountsError>)
        requires
            reaches(self.checks(scores_to_retain, *leaderboard_address, *top_entries_address), 2) ==> self.game.data.leaderboard_count < u64::MAX,
        ensures
            res == outcome(self.checks(scores_to_retain, *leaderboard_address, *top_entries_address)),
    {
        let checks = vec![
            signer_exec(&self.authority),
            signer_exec(&self.payer),
            seeds_exec(&self.leaderboard.key, leaderboard_address),
            creation_exec(&self.leaderboard),
            optional_seeds_exec(&self.top_entries, top_entries_address),
            optional_creation_exec(&self.top_entries),
            raw_exec(self.top_entries.is_none() || scores_to_retain > 0),
            authority_check_exec(&self.game.data, &self.authority.key),
            writable_exec(self.payer.is_writable),
            writable_exec(self.game.is_writable),
        ];
        proof {
            assert(checks@ =~= self.checks(scores_to_retain, *leaderboard_address, *top_entries_address));
        }
        evaluate(&checks)
    }
}

/// Accounts of `create_player`.
pub struct NewPlayer {
    pub payer: AccountInfo,
    pub user: AccountInfo,
    pub player_info: NewAccount,
    pub system_program: AccountInfo,
}

impl NewPlayer {
    pub open spec fn checks(&self, player_address: Pubkey) -> Seq<Check> {
        seq![
            signer(self.payer),
            signer(self.user),
            seeds(self.player_info.key, player_address),
            creation(self.player_info),
            writable(self.payer.is_writable),
        ]
    }

    /// Runs the declared checks: the payer and the user must sign, the player
    /// account must sit at `player_address` (derived from the user's address,
    /// see `pda::one_key_address`) and not be in use, and the payer must be
    /// writable.
    pub fn validate(&self, player_address: &Pubkey) -> (res: Result<(), AccountsError>)
        ensures
            res == outcome(self.checks(*player_address)),
    {
        let checks = vec![
            signer_exec(&self.payer),
            signer_exec(&self.user),
            seeds_exec(&self.player_info.key, player_address),
            creation_exec(&self.player_info),
            writable_exec(self.payer.is_writable),
        ];
        proof {
            assert(checks@ =~= self.checks(*player_address));
        }
        evaluate(&checks)
    }
}

/// Accounts of `register_player`.
pub struct RegisterPlayer {
    pub payer: AccountInfo,
    pub user: AccountInfo,
    pub player_info: Account<Player>,
    pub game: Account<Game>,
    pub leaderboard: Account<LeaderBoard>,
    pub new_list: NewAccount,
    pub system_program: AccountInfo,
}

impl RegisterPlayer {
    pub open spec fn checks(&self, list_address: Pubkey) -> Seq<Check> {
        seq![
            signer(self.payer),
            signer(self.user),
            seeds(self.new_list.key, list_address),
            creation(self.new_list),
            writable(self.payer.is_writable),
            has_one(self.player_info.data.user, self.user.key),
            has_one(self.leaderboard.data.game, self.game.key),
        ]
    }

    /// Runs the declared checks: the payer and the user must sign, the entry
    /// list must sit at `list_address` (derived from the player's and the
    /// leaderboard's addresses, see `pda::two_key_address`) and not be in use,
    /// the payer must be writable, the player must be the user's and the
    /// leaderboard the game's.
    pub fn validate(&self, list_address: &Pubkey) -> (res: Result<(), AccountsError>)
        ensures
            res == outcome(self.checks(*list_address)),
    {
        let checks = vec![
            signer_exec(&self.payer),
            signer_exec(&self.user),
            seeds_exec(&self.new_list.key, list_address),
            creation_exec(&self.new_list),
            writable_exec(self.payer.is_writable),
            has_one_exec(&self.player_info.data.user, &self.user.key),
            has_one_exec(&self.leaderboard.data.game, &self.game.key),
        ];
        proof {
            assert(checks@ =~= self.checks(*list_address));
        }
        evaluate(&checks)
    }
}

/// Accounts of `update_player`.
pub struct UpdatePlayer {
    pub user: AccountInfo,
    pub player_info: Account<Player>,
}

impl UpdatePlayer {
    pub open spec fn checks(&self) -> Seq<Check> {
        seq![
            signer(self.user),
            writable(self.player_info.is_writable),
        ]
    }

    /// Runs the declared checks: the user must sign and the player account must
    /// be writable.
    pub fn validate(&self) -> (res: Result<(), AccountsError>)
        ensures
            res == outcome(self.checks()),
    {
        let checks = vec![
            signer_exec(&self.user),
            writable_exec(self.player_info.is_writable),
        ];
        proof {
            assert(checks@ =~= self.checks());
        }
        evaluate(&checks)
    }
}

/// Accounts of `submit_score`.
pub struct SubmitScore {
    pub user: AccountInfo,
    pub payer: AccountInfo,
    pub authority: AccountInfo,
    pub player_info: Account<Player>,
    pub game: Account<Game>,
    pub leaderboard: Account<LeaderBoard>,
    /// The top-entries account, when one is passed.
    pub top_entries: Option<AccountInfo>,
    pub player_entries: Account<PlayerEntryList>,
    pub system_program: AccountInfo,
}

impl SubmitScore {
    pub open spec fn checks(&self) -> Seq<Check> {
        seq![
            signer(self.user),
            signer(self.payer),
            signer(self.authority),
            writable(self.payer.is_writable),
            authority_check(self.game.data, self.authority.key),
            has_one(self.player_info.data.user, self.user.key),
            has_one(self.leaderboard.data.game, self.game.key),
            optional_writable(self.top_entries),
            raw(match self.top_entries { Some(entry) => top_entries_match(self.leaderboard.data, entry.key), None => true }),
            writable(self.player_entries.is_writable),
            has_one(self.player_entries.data.player_info, self.player_info.key),
            has_one(self.player_entries.data.leaderboard, self.leaderboard.key),
        ]
    }

    /// Runs the declared checks: the user, the payer and the authority must
    /// sign; the payer must be writable; the authority must be on the game's
    /// list; the player must be the user's and the leaderboard the game's; a
    /// top-entries account, when given, must be writable and be the
    /// leaderboard's; the entry list must be writable and be the player's on
    /// that leaderboard.
    pub fn validate(&self) -> (res: Result<(), AccountsError>)
        ensures
            res == outcome(self.checks()),
    {
        let checks = vec![
            signer_exec(&self.user),
            signer_exec(&self.payer),
            signer_exec(&self.authority),
            writable_exec(self.payer.is_writable),
            authority_check_exec(&self.game.data, &self.authority.key),
            has_one_exec(&self.player_info.data.user, &self.user.key),
            has_one_exec(&self.leaderboard.data.game, &self.game.key),
            optional_writable_exec(&self.top_entries),
            raw_exec(match &self.top_entries { Some(entry) => check_top_entries(&self.leaderboard, &entry.key), None => true }),
            writable_exec(self.player_entries.is_writable),
            has_one_exec(&self.player_entries.data.player_info, &self.player_info.key),
            has_one_exec(&self.player_entries.data.leaderboard, &self.leaderboard.key),
        ];
        proof {
            assert(checks@ =~= self.checks());
        }
        evaluate(&checks)
    }
}

/// Accounts of `initiate_merge`.
pub struct InitiateMerge {
    pub payer: AccountInfo,
    pub user: AccountInfo,
    pub player: Account<Player>,
    pub merge_account: NewAccount,
    pub system_program: AccountInfo,
}

impl InitiateMerge {
    pub open spec fn checks(&self) -> Seq<Check> {
        seq![
            signer(self.payer),
            signer(self.user),
            creation(self.merge_account),
            writable(self.payer.is_writable),
            has_one(self.player.data.user, self.user.key),
        ]
    }

    /// Runs the declared checks: the payer and the user must sign, the merge
    /// account must not be in use, the payer must be writable, and the player
    /// must be the user's.
    pub fn validate(&self) -> (res: Result<(), AccountsError>)
        ensures
            res == outcome(self.checks()),
    {
        let checks = vec![
            signer_exec(&self.payer),
            signer_exec(&self.user),
            creation_exec(&self.merge_account),
            writable_exec(self.payer.is_writable),
            has_one_exec(&self.player.data.user, &self.user.key),
        ];
        proof {
            assert(checks@ =~= self.checks());
        }
        evaluate(&checks)
    }
}

/// Accounts of `register_merge_approval`.
pub struct RegisterMergeApproval {
    pub user: AccountInfo,
    pub player_info: Account<Player>,
    pub merge_account: AccountInfo,
}

impl RegisterMergeApproval {
    pub open spec fn checks(&self) -> Seq<Check> {
        seq![
            signer(self.user),
            has_one(self.player_info.data.user, self.user.key),
            writable(self.merge_account.is_writable),
        ]
    }

    /// Runs the declared checks: the user must sign, the player must be the
    /// user's, and the merge account must be writable.
    pub fn validate(&self) -> (res: Result<(), AccountsError>)
        ensures
            res == outcome(self.checks()),
    {
        let checks = vec![
            signer_exec(&self.user),
            has_one_exec(&self.player_info.data.user, &self.user.key),
            writable_exec(self.merge_account.is_writable),
        ];
        proof {
            assert(checks@ =~= self.checks());
        }
        evaluate(&checks)
    }
}

/// Accounts of `unlock_player_achievement`.
pub struct UnlockPlayerAchievement {
    pub authority: AccountInfo,
    pub payer: AccountInfo,
    pub user: AccountInfo,
    pub player_info: Account<Player>,
    pub player_entry: Account<PlayerEntryList>,
    pub leaderboard: Account<LeaderBoard>,
    pub game: Account<Game>,
    pub achievement: Account<Achievement>,
    pub player_achievement: NewAccount,
    pub system_program: AccountInfo,
}

impl UnlockPlayerAchievement {
    pub open spec fn checks(&self, player_achievement_address: Pubkey) -> Seq<Check> {
        seq![
            signer(self.authority),
            signer(self.payer),
            signer(self.user),
            seeds(self.player_achievement.key, player_achievement_address),
            creation(self.player_achievement),
            authority_check(self.game.data, self.authority.key),
            writable(self.payer.is_writable),
            has_one(self.player_info.data.user, self.user.key),
            has_one(self.player_entry.data.player_info, self.player_info.key),
            has_one(self.player_entry.data.leaderboard, self.leaderboard.key),
            has_one(self.leaderboard.data.game, self.game.key),
            has_one(self.achievement.data.game, self.game.key),
        ]
    }

    /// Runs the declared checks: the authority, the payer and the user must
    /// sign; the player achievement must sit at `player_achievement_address`
    /// (derived from the player's and the achievement's addresses, see
    /// `pda::two_key_address`) and not be in use; the authority must be on the
    /// game's list; the payer must be writable; the player must be the user's
    /// and have an entry list on a leaderboard of the game; the achievement
    /// must belong to the game.
    pub fn validate(&self, player_achievement_address: &Pubkey) -> (res: Result<(), AccountsError>)
        ensures
            res == outcome(self.checks(*player_achievement_address)),
    {
        let checks = vec![
            signer_exec(&self.authority),
            signer_exec(&self.payer),
            signer_exec(&self.user),
            seeds_exec(&self.player_achievement.key, player_achievement_address),
            creation_exec(&self.player_achievement),
            authority_check_exec(&self.game.data, &self.authority.key),
            writable_exec(self.payer.is_writable),
            has_one_exec(&self.player_info.data.user, &self.user.key),
            has_one_exec(&self.player_entry.data.player_info, &self.player_info.key),
            has_one_exec(&self.player_entry.data.leaderboard, &self.leaderboard.key),
            has_one_exec(&self.leaderboard.data.game, &self.game.key),
            has_one_exec(&self.achievement.data.game, &self.game.key),
        ];
        proof {
            assert(checks@ =~= self.checks(*player_achievement_address));
        }
        evaluate(&checks)
    }
}

/// Accounts of `add_reward`.
pub struct AddReward {
    pub authority: AccountInfo,
    pub payer: AccountInfo,
    pub game: Account<Game>,
    pub achievement: Account<Achievement>,
    pub new_reward: NewAccount,
    pub collection_update_auth: Option<AccountInfo>,
    pub collection_mint: Option<AccountInfo>,
    pub collection_metadata: Option<AccountInfo>,
    pub system_program: AccountInfo,
    pub token_metadata_program: AccountInfo,
}

impl AddReward {
    pub open spec fn checks(&self, reward_address: Pubkey) -> Seq<Check> {
        seq![
            signer(self.authority),
            signer(self.payer),
            optional_signer(self.collection_update_auth),
            seeds(self.new_reward.key, reward_address),
            creation(self.new_reward),
            authority_check(self.game.data, self.authority.key),
            writable(self.payer.is_writable),
            writable(self.achievement.is_writable),
            has_one(self.achievement.data.game, self.game.key),
            optional_writable(self.collection_metadata),
            address(self.token_metadata_program.key, token_metadata_program_key()),
        ]
    }

    /// Runs the declared checks: the authority and the payer must sign, and so
    /// must a collection update authority when given; the new reward must sit
    /// at `reward_address` (derived from the achievement's address, see
    /// `pda::reward_address`) and not be in use; the authority must be on the
    /// game's list; the payer and the achievement must be writable and the
    /// achievement must belong to the game; collection metadata, when given,
    /// must be writable; the token metadata program must be at its address.
    pub fn validate(&self, reward_address: &Pubkey) -> (res: Result<(), AccountsError>)
        ensures
            res == outcome(self.checks(*reward_address)),
    {
        let metadata_program_id = token_metadata_program_id();
        let checks = vec![
            signer_exec(&self.authority),
            signer_exec(&self.payer),
            optional_signer_exec(&self.collection_update_auth),
            seeds_exec(&self.new_reward.key, reward_address),
            creation_exec(&self.new_reward),
            authority_check_exec(&self.game.data, &self.authority.key),
            writable_exec(self.payer.is_writable),
            writable_exec(self.achievement.is_writable),
            has_one_exec(&self.achievement.data.game, &self.game.key),
            optional_writable_exec(&self.collection_metadata),
            address_exec(&self.token_metadata_program.key, &metadata_program_id),
        ];
        proof {
            assert(checks@ =~= self.checks(*reward_address));
        }
        evaluate(&checks)
    }
}

/// Accounts of `mint_reward`.
pub struct MintReward {
    pub payer: AccountInfo,
    pub authority: AccountInfo,
    pub user: AccountInfo,
    pub game: Account<Game>,
    pub achievement: Account<Achievement>,
    pub reward: Account<Reward>,
    pub player: Account<Player>,
    pub player_achievement: Account<PlayerAchievement>,
    pub mint: AccountInfo,
    pub metadata: AccountInfo,
    pub master_edition: AccountInfo,
    pub mint_nft_to: AccountInfo,
    pub token_program: AccountInfo,
    pub associated_token_program: AccountInfo,
    pub token_metadata_program: AccountInfo,
    pub system_program: AccountInfo,
    pub rent: AccountInfo,
}

impl MintReward {
    pub open spec fn checks(&self) -> Seq<Check> {
        seq![
            signer(self.payer),
            signer(self.authority),
            signer(self.mint),
            writable(self.payer.is_writable),
            authority_check(self.game.data, self.authority.key),
            has_one(self.achievement.data.game, self.game.key),
            raw(self.achievement.data.reward == Some(self.reward.key)),
            writable(self.reward.is_writable),
            has_one(self.reward.data.achievement, self.achievement.key),
            has_one(self.player.data.user, self.user.key),
            has_one(self.player_achievement.data.player, self.player.key),
            has_one(self.player_achievement.data.achievement, self.achievement.key),
            writable(self.mint.is_writable),
            writable(self.metadata.is_writable),
            writable(self.master_edition.is_writable),
            writable(self.mint_nft_to.is_writable),
            address(self.token_metadata_program.key, token_metadata_program_key()),
        ]
    }

    /// Runs the declared checks: the payer, the authority and the mint must
    /// sign; the payer must be writable; the authority must be on the game's
    /// list; the achievement must belong to the game and have this reward; the
    /// reward must be writable and be the achievement's; the player must be the
    /// user's; the player achievement must be this player's for this
    /// achievement; the mint, metadata, master edition and token account must
    /// be writable; the token metadata program must be at its address. An
    /// achievement without a reward is not accepted where its check is reached:
    /// the instruction aborts there.
    pub fn validate(&self) -> (res: Result<(), AccountsError>)
        requires
            reaches(self.checks(), 6) ==> self.achievement.data.reward is Some,
        ensures
            res == outcome(self.checks()),
    {
        let metadata_program_id = token_metadata_program_id();
        let checks = vec![
            signer_exec(&self.payer),
            signer_exec(&self.authority),
            signer_exec(&self.mint),
            writable_exec(self.payer.is_writable),
            authority_check_exec(&self.game.data, &self.authority.key),
            has_one_exec(&self.achievement.data.game, &self.game.key),
            raw_exec(holds(&self.achievement.data.reward, &self.reward.key)),
            writable_exec(self.reward.is_writable),
            has_one_exec(&self.reward.data.achievement, &self.achievement.key),
            has_one_exec(&self.player.data.user, &self.user.key),
            has_one_exec(&self.player_achievement.data.player, &self.player.key),
            has_one_exec(&self.player_achievement.data.achievement, &self.achievement.key),
            writable_exec(self.mint.is_writable),
            writable_exec(self.metadata.is_writable),
            writable_exec(self.master_edition.is_writable),
            writable_exec(self.mint_nft_to.is_writable),
            address_exec(&self.token_metadata_program.key, &metadata_program_id),
        ];
        proof {
            assert(checks@ =~= self.checks());
        }
        evaluate(&checks)
    }
}

/// Accounts of `verify_reward`.
pub struct VerifyReward {
    pub payer: AccountInfo,
    pub authority: AccountInfo,
    pub game: Account<Game>,
    pub achievement: Account<Achievement>,
    pub reward: Account<Reward>,
    pub user: AccountInfo,
    pub player: Account<Player>,
    pub player_achievement: Account<PlayerAchievement>,
    pub metadata_to_verify: AccountInfo,
    pub collection_mint: AccountInfo,
    pub collection_metadata: AccountInfo,
    pub collection_master_edition: AccountInfo,
}

impl VerifyReward {
    pub open spec fn checks(&self, reward_address: Pubkey) -> Seq<Check> {
        seq![
            signer(self.payer),
            signer(self.authority),
            writable(self.payer.is_writable),
            authority_check(self.game.data, self.authority.key),
            has_one(self.achievement.data.game, self.game.key),
            raw(self.achievement.data.reward == Some(self.reward.key)),
            seeds(self.reward.key, reward_address),
            has_one(self.reward.data.achievement, self.achievement.key),
            raw(self.reward.data.collection_mint == Some(self.collection_mint.key)),
            has_one(self.player.data.user, self.user.key),
            has_one(self.player_achievement.data.player, self.player.key),
            has_one(self.player_achievement.data.achievement, self.achievement.key),
            raw(self.player_achievement.data.metadata == Some(self.metadata_to_verify.key)),
            writable(self.collection_metadata.is_writable),
        ]
    }

    /// Runs the declared checks: the payer and the authority must sign; the
    /// payer must be writable; the authority must be on the game's list; the
    /// achievement must belong to the game and have this reward; the reward
    /// must sit at `reward_address` (see `pda::reward_address`), be the
    /// achievement's and belong to this collection; the player must be the
    /// user's; the player achievement must be this player's for this
    /// achievement, with this metadata; the collection metadata must be
    /// writable. An achievement without a reward, or a player achievement
    /// without metadata, is not accepted where its check is reached: the
    /// instruction aborts there.
    pub fn validate(&self, reward_address: &Pubkey) -> (res: Result<(), AccountsError>)
        requires
            reaches(self.checks(*reward_address), 5) ==> self.achievement.data.reward is Some,
            reaches(self.checks(*reward_address), 12) ==> self.player_achievement.data.metadata is Some,
        ensures
            res == outcome(self.checks(*reward_address)),
    {
        let checks = vec![
            signer_exec(&self.payer),
            signer_exec(&self.authority),
            writable_exec(self.payer.is_writable),
            authority_check_exec(&self.game.data, &self.authority.key),
            has_one_exec(&self.achievement.data.game, &self.game.key),
            raw_exec(holds(&self.achievement.data.reward, &self.reward.key)),
            seeds_exec(&self.reward.key, reward_address),
            has_one_exec(&self.reward.data.achievement, &self.achievement.key),
            raw_exec(holds(&self.reward.data.collection_mint, &self.collection_mint.key)),
            has_one_exec(&self.player.data.user, &self.user.key),
            has_one_exec(&self.player_achievement.data.player, &self.player.key),
            has_one_exec(&self.player_achievement.data.achievement, &self.achievement.key),
            raw_exec(holds(&self.player_achievement.data.metadata, &self.metadata_to_verify.key)),
            writable_exec(self.collection_metadata.is_writable),
        ];
        proof {
            assert(checks@ =~= self.checks(*reward_address));
        }
        evaluate(&checks)
    }
}

/// A check that is reached and refuses an authority that is not on the
/// game's list decides the outcome: `InvalidAuthority`, whatever the
/// checks after it are.
pub proof fn lemma_unlisted_authority_refused(checks: Seq<Check>, i: int, game: Game, authority: Pubkey)
    requires
        0 <= i < checks.len(),
        reaches(checks, i),
        checks[i] == authority_check(game, authority),
        !game.auth@.contains(authority),
    ensures
        outcome(checks) == Err::<(), AccountsError>(AccountsError::InvalidAuthority),
{
    crate::error::lemma_first_failure(checks, i);
}

/// A signer account that did not sign is refused with `AccountNotSigner`
/// when its check is reached, whatever the checks after it are.
pub proof fn lemma_unsigned_refused(checks: Seq<Check>, i: int, account: AccountInfo)
    requires
        0 <= i < checks.len(),
        reaches(checks, i),
        checks[i] == signer(account),
        !account.is_signer,
    ensures
        outcome(checks) == Err::<(), AccountsError>(AccountsError::AccountNotSigner),
{
    crate::error::lemma_first_failure(checks, i);
}

/// `initiate_merge` accepts only a merge that the player's own user signed,
/// into a merge account that is not in use yet.
pub proof fn lemma_initiate_merge_accepted(ctx: InitiateMerge)
    requires
        outcome(ctx.checks()) is Ok,
    ensures
        ctx.payer.is_signer,
        ctx.user.is_signer,
        !ctx.merge_account.in_use,
        ctx.payer.is_writable,
        ctx.player.data.user == ctx.user.key,
{
    crate::error::lemma_outcome(ctx.checks());
    let c = ctx.checks();
    assert(c[0].passed && c[1].passed && c[2].passed && c[3].passed && c[4].passed);
}

/// `register_player` creates a player's entry list on a leaderboard only at the
/// address that the player and the leaderboard derive, and only where none
/// is in use yet: a player has at most one entry list per leaderboard.
pub proof fn lemma_register_player_accepted(ctx: RegisterPlayer, list_address: Pubkey)
    requires
        outcome(ctx.checks(list_address)) is Ok,
    ensures
        ctx.payer.is_signer && ctx.user.is_signer,
        ctx.new_list.key == list_address,
        !ctx.new_list.in_use,
        ctx.player_info.data.user == ctx.user.key,
        ctx.leaderboard.data.game == ctx.game.key,
{
    crate::error::lemma_outcome(ctx.checks(list_address));
    let c = ctx.checks(list_address);
    assert(c[0].passed && c[1].passed && c[2].passed && c[3].passed && c[4].passed && c[5].passed && c[6].passed);
}

/// When `submit_score` accepts its accounts, the user, the payer and the
/// authority signed, the authority is on the game's list, the player is the
/// user's, the leaderboard is the game's, a top-entries account passed in is
/// the leaderboard's, and the entry list is the player's on that leaderboard.
pub proof fn lemma_submit_score_accepted(ctx: SubmitScore)
    requires
        outcome(ctx.checks()) is Ok,
    ensures
        ctx.user.is_signer && ctx.payer.is_signer && ctx.authority.is_signer,
        ctx.game.data.auth@.contains(ctx.authority.key),
        ctx.player_info.data.user == ctx.user.key,
        ctx.leaderboard.data.game == ctx.game.key,
        ctx.top_entries matches Some(entry) ==> top_entries_match(ctx.leaderboard.data, entry.key),
        ctx.player_entries.data.player_info == ctx.player_info.key,
        ctx.player_entries.data.leaderboard == ctx.leaderboard.key,
{
    crate::error::lemma_outcome(ctx.checks());
    let c = ctx.checks();
    assert(c[0].passed && c[1].passed && c[2].passed && c[3].passed && c[4].passed && c[5].passed && c[6].passed && c[7].passed && c[8].passed && c[9].passed && c[10].passed && c[11].passed);
}

/// `unlock_player_achievement` accepts only a player that has an entry list
/// on some leaderboard of the achievement's game, and creates the player
/// achievement only at its derived address and only where none is in use yet.
pub proof fn lemma_unlock_requires_entry_in_game(ctx: UnlockPlayerAchievement, player_achievement_address: Pubkey)
    requires
        outcome(ctx.checks(player_achievement_address)) is Ok,
    ensures
        ctx.user.is_signer,
        ctx.player_info.data.user == ctx.user.key,
        ctx.player_entry.data.player_info == ctx.player_info.key,
        ctx.player_entry.data.leaderboard == ctx.leaderboard.key,
        ctx.leaderboard.data.game == ctx.game.key,
        ctx.achievement.data.game == ctx.game.key,
        ctx.player_achievement.key == player_achievement_address,
        !ctx.player_achievement.in_use,
{
    crate::error::lemma_outcome(ctx.checks(player_achievement_address));
    let c = ctx.checks(player_achievement_address);
    assert(c[0].passed && c[1].passed && c[2].passed && c[3].passed && c[4].passed && c[5].passed && c[6].passed && c[7].passed && c[8].passed && c[9].passed && c[10].passed && c[11].passed);
}

/// `add_reward` creates an achievement's reward only at the address that the
/// achievement derives, and only where none is in use yet: an achievement
/// has at most one reward account.
pub proof fn lemma_add_reward_accepted(ctx: AddReward, reward_address: Pubkey)
    requires
        outcome(ctx.checks(reward_address)) is Ok,
    ensures
        ctx.authority.is_signer,
        ctx.game.data.auth@.contains(ctx.authority.key),
        ctx.achievement.data.game == ctx.game.key,
        ctx.new_reward.key == reward_address,
        !ctx.new_reward.in_use,
        ctx.token_metadata_program.key == token_metadata_program_key(),
{
    crate::error::lemma_outcome(ctx.checks(reward_address));
    let c = ctx.checks(reward_address);
    assert(c[0].passed && c[1].passed && c[2].passed && c[3].passed && c[4].passed && c[5].passed && c[6].passed && c[7].passed && c[8].passed && c[9].passed && c[10].passed);
}

/// `mint_reward` accepts only the reward of the achievement, and only for a
/// player of the user who unlocked that achievement.
pub proof fn lemma_mint_reward_accepted(ctx: MintReward)
    requires
        outcome(ctx.checks()) is Ok,
    ensures
        ctx.authority.is_signer && ctx.mint.is_signer,
        ctx.game.data.auth@.contains(ctx.authority.key),
        ctx.achievement.data.game == ctx.game.key,
        ctx.achievement.data.reward == Some(ctx.reward.key),
        ctx.reward.data.achievement == ctx.achievement.key,
        ctx.player.data.user == ctx.user.key,
        ctx.player_achievement.data.player == ctx.player.key,
        ctx.player_achievement.data.achievement == ctx.achievement.key,
        ctx.token_metadata_program.key == token_metadata_program_key(),
{
    crate::error::lemma_outcome(ctx.checks());
    let c = ctx.checks();
    assert(c[0].passed && c[1].passed && c[2].passed && c[3].passed && c[4].passed && c[5].passed && c[6].passed && c[7].passed && c[8].passed && c[9].passed && c[10].passed && c[11].passed && c[12].passed && c[13].passed && c[14].passed && c[15].passed && c[16].passed);
}

/// `verify_reward` accepts only a minted reward NFT of the player's
/// achievement, only the reward at the address its seeds derive, and only
/// against the reward's own collection.
pub proof fn lemma_verify_reward_accepted(ctx: VerifyReward, reward_address: Pubkey)
    requires
        outcome(ctx.checks(reward_address)) is Ok,
    ensures
        ctx.authority.is_signer,
        ctx.game.data.auth@.contains(ctx.authority.key),
        ctx.achievement.data.game == ctx.game.key,
        ctx.achievement.data.reward == Some(ctx.reward.key),
        ctx.reward.key == reward_address,
        ctx.reward.data.achievement == ctx.achievement.key,
        ctx.reward.data.collection_mint == Some(ctx.collection_mint.key),
        ctx.player.data.user == ctx.user.key,
        ctx.player_achievement.data.player == ctx.player.key,
        ctx.player_achievement.data.achievement == ctx.achievement.key,
        ctx.player_achievement.data.metadata == Some(ctx.metadata_to_verify.key),
{
    crate::error::lemma_outcome(ctx.checks(reward_address));
    let c = ctx.checks(reward_address);
    assert(c[0].passed && c[1].passed && c[2].passed && c[3].passed && c[4].passed && c[5].passed && c[6].passed && c[7].passed && c[8].passed && c[9].passed && c[10].passed && c[11].passed && c[12].passed && c[13].passed);
}

/// `initialize_game` accepts its accounts exactly when the creator signed and
/// may be written, and the game account is not in use yet.
pub proof fn lemma_initialize_game_accepts_exactly(ctx: InitializeGame)
    ensures
        outcome(ctx.checks()) is Ok <==> {
            &&& ctx.creator.is_signer
            &&& !ctx.game.in_use
            &&& ctx.creator.is_writable
        },
{
    let c = ctx.checks();
    crate::error::lemma_outcome(c);
    assert(c.len() == 3);
    if reaches(c, c.len() as int) {
        assert(c[0].passed && c[1].passed && c[2].passed);
    }
    if (ctx.creator.is_signer) && (!ctx.game.in_use) && (ctx.creator.is_writable) {
        assert forall|j: int| 0 <= j < c.len() implies #[trigger] c[j].passed by {
            if j == 0 {} else if j == 1 {}
        }
    }
}

/// `initialize_game` refuses its accounts with `AccountNotSigner` when one of
/// its signers did not sign, whatever the other accounts are.
pub proof fn lemma_initialize_game_needs_signatures(ctx: InitializeGame)
    requires
        !((ctx.creator.is_signer)),
    ensures
        outcome(ctx.checks()) == Err::<(), AccountsError>(AccountsError::AccountNotSigner),
{
    let c = ctx.checks();
    if !(ctx.creator.is_signer) {
        crate::error::lemma_first_failure(c, 0);
    }
}

/// `update_game` accepts its accounts exactly when the authority and the payer
/// signed, the authority is on the game's list, and the payer and the game may
/// be written.
pub proof fn lemma_update_game_accepts_exactly(ctx: UpdateGame)
    ensures
        outcome(ctx.checks()) is Ok <==> {
            &&& ctx.authority.is_signer
            &&& ctx.payer.is_signer
            &&& ctx.game.data.auth@.contains(ctx.authority.key)
            &&& ctx.payer.is_writable
            &&& ctx.game.is_writable
        },
{
    let c = ctx.checks();
    crate::error::lemma_outcome(c);
    assert(c.len() == 5);
    if reaches(c, c.len() as int) {
        assert(c[0].passed && c[1].passed && c[2].passed && c[3].passed && c[4].passed);
    }
    if (ctx.authority.is_signer) && (ctx.payer.is_signer) && (ctx.game.data.auth@.contains(ctx.authority.key)) && (ctx.payer.is_writable) && (ctx.game.is_writable) {
        assert forall|j: int| 0 <= j < c.len() implies #[trigger] c[j].passed by {
            if j == 0 {} else if j == 1 {} else if j == 2 {} else if j == 3 {}
        }
    }
}

/// `update_game` refuses its accounts with `AccountNotSigner` when one of its
/// signers did not sign, whatever the other accounts are.
pub proof fn lemma_update_game_needs_signatures(ctx: UpdateGame)
    requires
        !((ctx.authority.is_signer) && (ctx.payer.is_signer)),
    ensures
        outcome(ctx.checks()) == Err::<(), AccountsError>(AccountsError::AccountNotSigner),
{
    let c = ctx.checks();
    if !(ctx.authority.is_signer) {
        crate::error::lemma_first_failure(c, 0);
    } else if !(ctx.payer.is_signer) {
        assert forall|j: int| 0 <= j < 1 && j < c.len() implies #[trigger] c[j].passed by {
            
        }
        crate::error::lemma_first_failure(c, 1);
    }
}

/// `add_achievement` accepts its accounts exactly when the authority and the
/// payer signed, the new achievement sits at its derived address and is not in
/// use yet, the authority is on the game's list, and the payer and the game may
/// be written.
pub proof fn lemma_add_achievement_accepts_exactly(ctx: AddAchievement, achievement_address: Pubkey)
    ensures
        outcome(ctx.checks(achievement_address)) is Ok <==> {
            &&& ctx.authority.is_signer
            &&& ctx.payer.is_signer
            &&& ctx.new_achievement.key == achievement_address
            &&& !ctx.new_achievement.in_use
            &&& ctx.game.data.auth@.contains(ctx.authority.key)
            &&& ctx.payer.is_writable
            &&& ctx.game.is_writable
        },
{
    let c = ctx.checks(achievement_address);
    crate::error::lemma_outcome(c);
    assert(c.len() == 7);
    if reaches(c, c.len() as int) {
        assert(c[0].passed && c[1].passed && c[2].passed && c[3].passed && c[4].passed && c[5].passed && c[6].passed);
    }
    if (ctx.authority.is_signer) && (ctx.payer.is_signer) && (ctx.new_achievement.key == achievement_address) && (!ctx.new_achievement.in_use) && (ctx.game.data.auth@.contains(ctx.authority.key)) && (ctx.payer.is_writable) && (ctx.game.is_writable) {
        assert forall|j: int| 0 <= j < c.len() implies #[trigger] c[j].passed by {
            if j == 0 {} else if j == 1 {} else if j == 2 {} else if j == 3 {} else if j == 4 {} else if j == 5 {}
        }
    }
}

/// `add_achievement` refuses its accounts with `AccountNotSigner` when one of
/// its signers did not sign, whatever the other accounts are.
pub proof fn lemma_add_achievement_needs_signatures(ctx: AddAchievement, achievement_address: Pubkey)
    requires
        !((ctx.authority.is_signer) && (ctx.payer.is_signer)),
    ensures
        outcome(ctx.checks(achievement_address)) == Err::<(), AccountsError>(AccountsError::AccountNotSigner),
{
    let c = ctx.checks(achievement_address);
    if !(ctx.authority.is_signer) {
        crate::error::lemma_first_failure(c, 0);
    } else if !(ctx.payer.is_signer) {
        assert forall|j: int| 0 <= j < 1 && j < c.len() implies #[trigger] c[j].passed by {
            
        }
        crate::error::lemma_first_failure(c, 1);
    }
}

/// `update_achievement` accepts its accounts exactly when the authority signed
/// and is on the game's list, and the achievement may be written and belongs to
/// the game.
pub proof fn lemma_update_achievement_accepts_exactly(ctx: UpdateAchievement)
    ensures
        outcome(ctx.checks()) is Ok <==> {
            &&& ctx.authority.is_signer
            &&& ctx.game.data.auth@.contains(ctx.authority.key)
            &&& ctx.achievement.is_writable
            &&& ctx.achievement.data.game == ctx.game.key
        },
{
    let c = ctx.checks();
    crate::error::lemma_outcome(c);
    assert(c.len() == 4);
    if reaches(c, c.len() as int) {
        assert(c[0].passed && c[1].passed && c[2].passed && c[3].passed);
    }
    if (ctx.authority.is_signer) && (ctx.game.data.auth@.contains(ctx.authority.key)) && (ctx.achievement.is_writable) && (ctx.achievement.data.game == ctx.game.key) {
        assert forall|j: int| 0 <= j < c.len() implies #[trigger] c[j].passed by {
            if j == 0 {} else if j == 1 {} else if j == 2 {}
        }
    }
}

/// `update_achievement` refuses its accounts with `AccountNotSigner` when one
/// of its signers did not sign, whatever the other accounts are.
pub proof fn lemma_update_achievement_needs_signatures(ctx: UpdateAchievement)
    requires
        !((ctx.authority.is_signer)),
    ensures
        outcome(ctx.checks()) == Err::<(), AccountsError>(AccountsError::AccountNotSigner),
{
    let c = ctx.checks();
    if !(ctx.authority.is_signer) {
        crate::error::lemma_first_failure(c, 0);
    }
}

/// `add_leaderboard` accepts its accounts exactly when the authority and the
/// payer signed; the new leaderboard sits at its derived address and is not in
/// use yet; a top-entries account, when given, sits at its derived address, is
/// not in use yet, and at least one score is retained; the authority is on the
/// game's list; and the payer and the game may be written.
pub proof fn lemma_add_leaderboard_accepts_exactly(ctx: AddLeaderBoard, scores_to_retain: u8, leaderboard_address: Pubkey, top_entries_address: Pubkey)
    ensures
        outcome(ctx.checks(scores_to_retain, leaderboard_address, top_entries_address)) is Ok <==> {
            &&& ctx.authority.is_signer
            &&& ctx.payer.is_signer
            &&& ctx.leaderboard.key == leaderboard_address
            &&& !ctx.leaderboard.in_use
            &&& (match ctx.top_entries { Some(a) => a.key == top_entries_address, None => true })
            &&& (match ctx.top_entries { Some(a) => !a.in_use, None => true })
            &&& (match ctx.top_entries { Some(a) => scores_to_retain > 0, None => true })
            &&& ctx.game.data.auth@.contains(ctx.authority.key)
            &&& ctx.payer.is_writable
            &&& ctx.game.is_writable
        },
{
    let c = ctx.checks(scores_to_retain, leaderboard_address, top_entries_address);
    crate::error::lemma_outcome(c);
    assert(c.len() == 10);
    if reaches(c, c.len() as int) {
        assert(c[0].passed && c[1].passed && c[2].passed && c[3].passed && c[4].passed && c[5].passed && c[6].passed && c[7].passed && c[8].passed && c[9].passed);
    }
    if (ctx.authority.is_signer) && (ctx.payer.is_signer) && (ctx.leaderboard.key == leaderboard_address) && (!ctx.leaderboard.in_use) && ((match ctx.top_entries { Some(a) => a.key == top_entries_address, None => true })) && ((match ctx.top_entries { Some(a) => !a.in_use, None => true })) && ((match ctx.top_entries { Some(a) => scores_to_retain > 0, None => true })) && (ctx.game.data.auth@.contains(ctx.authority.key)) && (ctx.payer.is_writable) && (ctx.game.is_writable) {
        assert forall|j: int| 0 <= j < c.len() implies #[trigger] c[j].passed by {
            if j == 0 {} else if j == 1 {} else if j == 2 {} else if j == 3 {} else if j == 4 {} else if j == 5 {} else if j == 6 {} else if j == 7 {} else if j == 8 {}
        }
    }
}

/// `add_leaderboard` refuses its accounts with `AccountNotSigner` when one of
/// its signers did not sign, whatever the other accounts are.
pub proof fn lemma_add_leaderboard_needs_signatures(ctx: AddLeaderBoard, scores_to_retain: u8, leaderboard_address: Pubkey, top_entries_address: Pubkey)
    requires
        !((ctx.authority.is_signer) && (ctx.payer.is_signer)),
    ensures
        outcome(ctx.checks(scores_to_retain, leaderboard_address, top_entries_address)) == Err::<(), AccountsError>(AccountsError::AccountNotSigner),
{
    let c = ctx.checks(scores_to_retain, leaderboard_address, top_entries_address);
    if !(ctx.authority.is_signer) {
        crate::error::lemma_first_failure(c, 0);
    } else if !(ctx.payer.is_signer) {
        assert forall|j: int| 0 <= j < 1 && j < c.len() implies #[trigger] c[j].passed by {
            
        }
        crate::error::lemma_first_failure(c, 1);
    }
}

/// `create_player` accepts its accounts exactly when the payer and the user
/// signed, the player account sits at its derived address and is not in use
/// yet, and the payer may be written.
pub proof fn lemma_create_player_accepts_exactly(ctx: NewPlayer, player_address: Pubkey)
    ensures
        outcome(ctx.checks(player_address)) is Ok <==> {
            &&& ctx.payer.is_signer
            &&& ctx.user.is_signer
            &&& ctx.player_info.key == player_address
            &&& !ctx.player_info.in_use
            &&& ctx.payer.is_writable
        },
{
    let c = ctx.checks(player_address);
    crate::error::lemma_outcome(c);
    assert(c.len() == 5);
    if reaches(c, c.len() as int) {
        assert(c[0].passed && c[1].passed && c[2].passed && c[3].passed && c[4].passed);
    }
    if (ctx.payer.is_signer) && (ctx.user.is_signer) && (ctx.player_info.key == player_address) && (!ctx.player_info.in_use) && (ctx.payer.is_writable) {
        assert forall|j: int| 0 <= j < c.len() implies #[trigger] c[j].passed by {
            if j == 0 {} else if j == 1 {} else if j == 2 {} else if j == 3 {}
        }
    }
}

/// `create_player` refuses its accounts with `AccountNotSigner` when one of its
/// signers did not sign, whatever the other accounts are.
pub proof fn lemma_create_player_needs_signatures(ctx: NewPlayer, player_address: Pubkey)
    requires
        !((ctx.payer.is_signer) && (ctx.user.is_signer)),
    ensures
        outcome(ctx.checks(player_address)) == Err::<(), AccountsError>(AccountsError::AccountNotSigner),
{
    let c = ctx.checks(player_address);
    if !(ctx.payer.is_signer) {
        crate::error::lemma_first_failure(c, 0);
    } else if !(ctx.user.is_signer) {
        assert forall|j: int| 0 <= j < 1 && j < c.len() implies #[trigger] c[j].passed by {
            
        }
        crate::error::lemma_first_failure(c, 1);
    }
}

/// `register_player` accepts its accounts exactly when the payer and the user
/// signed, the entry list sits at its derived address and is not in use yet,
/// the payer may be written, the player is the user's and the leaderboard the
/// game's.
pub proof fn lemma_register_player_accepts_exactly(ctx: RegisterPlayer, list_address: Pubkey)
    ensures
        outcome(ctx.checks(list_address)) is Ok <==> {
            &&& ctx.payer.is_signer
            &&& ctx.user.is_signer
            &&& ctx.new_list.key == list_address
            &&& !ctx.new_list.in_use
            &&& ctx.payer.is_writable
            &&& ctx.player_info.data.user == ctx.user.key
            &&& ctx.leaderboard.data.game == ctx.game.key
        },
{
    let c = ctx.checks(list_address);
    crate::error::lemma_outcome(c);
    assert(c.len() == 7);
    if reaches(c, c.len() as int) {
        assert(c[0].passed && c[1].passed && c[2].passed && c[3].passed && c[4].passed && c[5].passed && c[6].passed);
    }
    if (ctx.payer.is_signer) && (ctx.user.is_signer) && (ctx.new_list.key == list_address) && (!ctx.new_list.in_use) && (ctx.payer.is_writable) && (ctx.player_info.data.user == ctx.user.key) && (ctx.leaderboard.data.game == ctx.game.key) {
        assert forall|j: int| 0 <= j < c.len() implies #[trigger] c[j].passed by {
            if j == 0 {} else if j == 1 {} else if j == 2 {} else if j == 3 {} else if j == 4 {} else if j == 5 {}
        }
    }
}

/// `register_player` refuses its accounts with `AccountNotSigner` when one of
/// its signers did not sign, whatever the other accounts are.
pub proof fn lemma_register_player_needs_signatures(ctx: RegisterPlayer, list_address: Pubkey)
    requires
        !((ctx.payer.is_signer) && (ctx.user.is_signer)),
    ensures
        outcome(ctx.checks(list_address)) == Err::<(), AccountsError>(AccountsError::AccountNotSigner),
{
    let c = ctx.checks(list_address);
    if !(ctx.payer.is_signer) {
        crate::error::lemma_first_failure(c, 0);
    } else if !(ctx.user.is_signer) {
        assert forall|j: int| 0 <= j < 1 && j < c.len() implies #[trigger] c[j].passed by {
            
        }
        crate::error::lemma_first_failure(c, 1);
    }
}

/// `update_player` accepts its accounts exactly when the user signed and the
/// player account may be written.
pub proof fn lemma_update_player_accepts_exactly(ctx: UpdatePlayer)
    ensures
        outcome(ctx.checks()) is Ok <==> {
            &&& ctx.user.is_signer
            &&& ctx.player_info.is_writable
        },
{
    let c = ctx.checks();
    crate::error::lemma_outcome(c);
    assert(c.len() == 2);
    if reaches(c, c.len() as int) {
        assert(c[0].passed && c[1].passed);
    }
    if (ctx.user.is_signer) && (ctx.player_info.is_writable) {
        assert forall|j: int| 0 <= j < c.len() implies #[trigger] c[j].passed by {
            if j == 0 {}
        }
    }
}

/// `update_player` refuses its accounts with `AccountNotSigner` when one of its
/// signers did not sign, whatever the other accounts are.
pub proof fn lemma_update_player_needs_signatures(ctx: UpdatePlayer)
    requires
        !((ctx.user.is_signer)),
    ensures
        outcome(ctx.checks()) == Err::<(), AccountsError>(AccountsError::AccountNotSigner),
{
    let c = ctx.checks();
    if !(ctx.user.is_signer) {
        crate::error::lemma_first_failure(c, 0);
    }
}

/// `submit_score` accepts its accounts exactly when the user, the payer and the
/// authority signed; the payer may be written; the authority is on the game's
/// list; the player is the user's and the leaderboard the game's; a top-entries
/// account, when given, may be written and is the one the leaderboard names, if
/// it names one; the entry list may be written and is the player's on that
/// leaderboard.
pub proof fn lemma_submit_score_accepts_exactly(ctx: SubmitScore)
    ensures
        outcome(ctx.checks()) is Ok <==> {
            &&& ctx.user.is_signer
            &&& ctx.payer.is_signer
            &&& ctx.authority.is_signer
            &&& ctx.payer.is_writable
            &&& ctx.game.data.auth@.contains(ctx.authority.key)
            &&& ctx.player_info.data.user == ctx.user.key
            &&& ctx.leaderboard.data.game == ctx.game.key
            &&& (match ctx.top_entries { Some(a) => a.is_writable, None => true })
            &&& (match ctx.top_entries { Some(a) => (match ctx.leaderboard.data.top_entries { Some(k) => k == a.key, None => true }), None => true })
            &&& ctx.player_entries.is_writable
            &&& ctx.player_entries.data.player_info == ctx.player_info.key
            &&& ctx.player_entries.data.leaderboard == ctx.leaderboard.key
        },
{
    let c = ctx.checks();
    crate::error::lemma_outcome(c);
    assert(c.len() == 12);
    if reaches(c, c.len() as int) {
        assert(c[0].passed && c[1].passed && c[2].passed && c[3].passed && c[4].passed && c[5].passed && c[6].passed && c[7].passed && c[8].passed && c[9].passed && c[10].passed && c[11].passed);
    }
    if (ctx.user.is_signer) && (ctx.payer.is_signer) && (ctx.authority.is_signer) && (ctx.payer.is_writable) && (ctx.game.data.auth@.contains(ctx.authority.key)) && (ctx.player_info.data.user == ctx.user.key) && (ctx.leaderboard.data.game == ctx.game.key) && ((match ctx.top_entries { Some(a) => a.is_writable, None => true })) && ((match ctx.top_entries { Some(a) => (match ctx.leaderboard.data.top_entries { Some(k) => k == a.key, None => true }), None => true })) && (ctx.player_entries.is_writable) && (ctx.player_entries.data.player_info == ctx.player_info.key) && (ctx.player_entries.data.leaderboard == ctx.leaderboard.key) {
        assert forall|j: int| 0 <= j < c.len() implies #[trigger] c[j].passed by {
            if j == 0 {} else if j == 1 {} else if j == 2 {} else if j == 3 {} else if j == 4 {} else if j == 5 {} else if j == 6 {} else if j == 7 {} else if j == 8 {} else if j == 9 {} else if j == 10 {}
        }
    }
}

/// `submit_score` refuses its accounts with `AccountNotSigner` when one of its
/// signers did not sign, whatever the other accounts are.
pub proof fn lemma_submit_score_needs_signatures(ctx: SubmitScore)
    requires
        !((ctx.user.is_signer) && (ctx.payer.is_signer) && (ctx.authority.is_signer)),
    ensures
        outcome(ctx.checks()) == Err::<(), AccountsError>(AccountsError::AccountNotSigner),
{
    let c = ctx.checks();
    if !(ctx.user.is_signer) {
        crate::error::lemma_first_failure(c, 0);
    } else if !(ctx.payer.is_signer) {
        assert forall|j: int| 0 <= j < 1 && j < c.len() implies #[trigger] c[j].passed by {
            
        }
        crate::error::lemma_first_failure(c, 1);
    } else if !(ctx.authority.is_signer) {
        assert forall|j: int| 0 <= j < 2 && j < c.len() implies #[trigger] c[j].passed by {
            if j == 0 {}
        }
        crate::error::lemma_first_failure(c, 2);
    }
}

/// `initiate_merge` accepts its accounts exactly when the payer and the user
/// signed, the merge account is not in use yet, the payer may be written, and
/// the player is the user's.
pub proof fn lemma_initiate_merge_accepts_exactly(ctx: InitiateMerge)
    ensures
        outcome(ctx.checks()) is Ok <==> {
            &&& ctx.payer.is_signer
            &&& ctx.user.is_signer
            &&& !ctx.merge_account.in_use
            &&& ctx.payer.is_writable
            &&& ctx.player.data.user == ctx.user.key
        },
{
    let c = ctx.checks();
    crate::error::lemma_outcome(c);
    assert(c.len() == 5);
    if reaches(c, c.len() as int) {
        assert(c[0].passed && c[1].passed && c[2].passed && c[3].passed && c[4].passed);
    }
    if (ctx.payer.is_signer) && (ctx.user.is_signer) && (!ctx.merge_account.in_use) && (ctx.payer.is_writable) && (ctx.player.data.user == ctx.user.key) {
        assert forall|j: int| 0 <= j < c.len() implies #[trigger] c[j].passed by {
            if j == 0 {} else if j == 1 {} else if j == 2 {} else if j == 3 {}
        }
    }
}

/// `initiate_merge` refuses its accounts with `AccountNotSigner` when one of
/// its signers did not sign, whatever the other accounts are.
pub proof fn lemma_initiate_merge_needs_signatures(ctx: InitiateMerge)
    requires
        !((ctx.payer.is_signer) && (ctx.user.is_signer)),
    ensures
        outcome(ctx.checks()) == Err::<(), AccountsError>(AccountsError::AccountNotSigner),
{
    let c = ctx.checks();
    if !(ctx.payer.is_signer) {
        crate::error::lemma_first_failure(c, 0);
    } else if !(ctx.user.is_signer) {
        assert forall|j: int| 0 <= j < 1 && j < c.len() implies #[trigger] c[j].passed by {
            
        }
        crate::error::lemma_first_failure(c, 1);
    }
}

/// `register_merge_approval` accepts its accounts exactly when the user signed,
/// the player is the user's, and the merge account may be written.
pub proof fn lemma_register_merge_approval_accepts_exactly(ctx: RegisterMergeApproval)
    ensures
        outcome(ctx.checks()) is Ok <==> {
            &&& ctx.user.is_signer
            &&& ctx.player_info.data.user == ctx.user.key
            &&& ctx.merge_account.is_writable
        },
{
    let c = ctx.checks();
    crate::error::lemma_outcome(c);
    assert(c.len() == 3);
    if reaches(c, c.len() as int) {
        assert(c[0].passed && c[1].passed && c[2].passed);
    }
    if (ctx.user.is_signer) && (ctx.player_info.data.user == ctx.user.key) && (ctx.merge_account.is_writable) {
        assert forall|j: int| 0 <= j < c.len() implies #[trigger] c[j].passed by {
            if j == 0 {} else if j == 1 {}
        }
    }
}

/// `register_merge_approval` refuses its accounts with `AccountNotSigner` when
/// one of its signers did not sign, whatever the other accounts are.
pub proof fn lemma_register_merge_approval_needs_signatures(ctx: RegisterMergeApproval)
    requires
        !((ctx.user.is_signer)),
    ensures
        outcome(ctx.checks()) == Err::<(), AccountsError>(AccountsError::AccountNotSigner),
{
    let c = ctx.checks();
    if !(ctx.user.is_signer) {
        crate::error::lemma_first_failure(c, 0);
    }
}

/// `unlock_player_achievement` accepts its accounts exactly when the authority,
/// the payer and the user signed; the player achievement sits at its derived
/// address and is not in use yet; the authority is on the game's list; the
/// payer may be written; the player is the user's and has an entry list on a
/// leaderboard of the game; and the achievement belongs to the game.
pub proof fn lemma_unlock_player_achievement_accepts_exactly(ctx: UnlockPlayerAchievement, player_achievement_address: Pubkey)
    ensures
        outcome(ctx.checks(player_achievement_address)) is Ok <==> {
            &&& ctx.authority.is_signer
            &&& ctx.payer.is_signer
            &&& ctx.user.is_signer
            &&& ctx.player_achievement.key == player_achievement_address
            &&& !ctx.player_achievement.in_use
            &&& ctx.game.data.auth@.contains(ctx.authority.key)
            &&& ctx.payer.is_writable
            &&& ctx.player_info.data.user == ctx.user.key
            &&& ctx.player_entry.data.player_info == ctx.player_info.key
            &&& ctx.player_entry.data.leaderboard == ctx.leaderboard.key
            &&& ctx.leaderboard.data.game == ctx.game.key
            &&& ctx.achievement.data.game == ctx.game.key
        },
{
    let c = ctx.checks(player_achievement_address);
    crate::error::lemma_outcome(c);
    assert(c.len() == 12);
    if reaches(c, c.len() as int) {
        assert(c[0].passed && c[1].passed && c[2].passed && c[3].passed && c[4].passed && c[5].passed && c[6].passed && c[7].passed && c[8].passed && c[9].passed && c[10].passed && c[11].passed);
    }
    if (ctx.authority.is_signer) && (ctx.payer.is_signer) && (ctx.user.is_signer) && (ctx.player_achievement.key == player_achievement_address) && (!ctx.player_achievement.in_use) && (ctx.game.data.auth@.contains(ctx.authority.key)) && (ctx.payer.is_writable) && (ctx.player_info.data.user == ctx.user.key) && (ctx.player_entry.data.player_info == ctx.player_info.key) && (ctx.player_entry.data.leaderboard == ctx.leaderboard.key) && (ctx.leaderboard.data.game == ctx.game.key) && (ctx.achievement.data.game == ctx.game.key) {
        assert forall|j: int| 0 <= j < c.len() implies #[trigger] c[j].passed by {
            if j == 0 {} else if j == 1 {} else if j == 2 {} else if j == 3 {} else if j == 4 {} else if j == 5 {} else if j == 6 {} else if j == 7 {} else if j == 8 {} else if j == 9 {} else if j == 10 {}
        }
    }
}

/// `unlock_player_achievement` refuses its accounts with `AccountNotSigner`
/// when one of its signers did not sign, whatever the other accounts are.
pub proof fn lemma_unlock_player_achievement_needs_signatures(ctx: UnlockPlayerAchievement, player_achievement_address: Pubkey)
    requires
        !((ctx.authority.is_signer) && (ctx.payer.is_signer) && (ctx.user.is_signer)),
    ensures
        outcome(ctx.checks(player_achievement_address)) == Err::<(), AccountsError>(AccountsError::AccountNotSigner),
{
    let c = ctx.checks(player_achievement_address);
    if !(ctx.authority.is_signer) {
        crate::error::lemma_first_failure(c, 0);
    } else if !(ctx.payer.is_signer) {
        assert forall|j: int| 0 <= j < 1 && j < c.len() implies #[trigger] c[j].passed by {
            
        }
        crate::error::lemma_first_failure(c, 1);
    } else if !(ctx.user.is_signer) {
        assert forall|j: int| 0 <= j < 2 && j < c.len() implies #[trigger] c[j].passed by {
            if j == 0 {}
        }
        crate::error::lemma_first_failure(c, 2);
    }
}

/// `add_reward` accepts its accounts exactly when the authority and the payer
/// signed, and so did a collection update authority when given; the new reward
/// sits at its derived address and is not in use yet; the authority is on the
/// game's list; the payer and the achievement may be written and the
/// achievement belongs to the game; collection metadata, when given, may be
/// written; and the token metadata program is at its address.
pub proof fn lemma_add_reward_accepts_exactly(ctx: AddReward, reward_address: Pubkey)
    ensures
        outcome(ctx.checks(reward_address)) is Ok <==> {
            &&& ctx.authority.is_signer
            &&& ctx.payer.is_signer
            &&& (match ctx.collection_update_auth { Some(a) => a.is_signer, None => true })
            &&& ctx.new_reward.key == reward_address
            &&& !ctx.new_reward.in_use
            &&& ctx.game.data.auth@.contains(ctx.authority.key)
            &&& ctx.payer.is_writable
            &&& ctx.achievement.is_writable
            &&& ctx.achievement.data.game == ctx.game.key
            &&& (match ctx.collection_metadata { Some(a) => a.is_writable, None => true })
            &&& ctx.token_metadata_program.key == token_metadata_program_key()
        },
{
    let c = ctx.checks(reward_address);
    crate::error::lemma_outcome(c);
    assert(c.len() == 11);
    if reaches(c, c.len() as int) {
        assert(c[0].passed && c[1].passed && c[2].passed && c[3].passed && c[4].passed && c[5].passed && c[6].passed && c[7].passed && c[8].passed && c[9].passed && c[10].passed);
    }
    if (ctx.authority.is_signer) && (ctx.payer.is_signer) && ((match ctx.collection_update_auth { Some(a) => a.is_signer, None => true })) && (ctx.new_reward.key == reward_address) && (!ctx.new_reward.in_use) && (ctx.game.data.auth@.contains(ctx.authority.key)) && (ctx.payer.is_writable) && (ctx.achievement.is_writable) && (ctx.achievement.data.game == ctx.game.key) && ((match ctx.collection_metadata { Some(a) => a.is_writable, None => true })) && (ctx.token_metadata_program.key == token_metadata_program_key()) {
        assert forall|j: int| 0 <= j < c.len() implies #[trigger] c[j].passed by {
            if j == 0 {} else if j == 1 {} else if j == 2 {} else if j == 3 {} else if j == 4 {} else if j == 5 {} else if j == 6 {} else if j == 7 {} else if j == 8 {} else if j == 9 {}
        }
    }
}

/// `add_reward` refuses its accounts with `AccountNotSigner` when one of its
/// signers did not sign, whatever the other accounts are.
pub proof fn lemma_add_reward_needs_signatures(ctx: AddReward, reward_address: Pubkey)
    requires
        !((ctx.authority.is_signer) && (ctx.payer.is_signer) && ((match ctx.collection_update_auth { Some(a) => a.is_signer, None => true }))),
    ensures
        outcome(ctx.checks(reward_address)) == Err::<(), AccountsError>(AccountsError::AccountNotSigner),
{
    let c = ctx.checks(reward_address);
    if !(ctx.authority.is_signer) {
        crate::error::lemma_first_failure(c, 0);
    } else if !(ctx.payer.is_signer) {
        assert forall|j: int| 0 <= j < 1 && j < c.len() implies #[trigger] c[j].passed by {
            
        }
        crate::error::lemma_first_failure(c, 1);
    } else if !((match ctx.collection_update_auth { Some(a) => a.is_signer, None => true })) {
        assert forall|j: int| 0 <= j < 2 && j < c.len() implies #[trigger] c[j].passed by {
            if j == 0 {}
        }
        crate::error::lemma_first_failure(c, 2);
    }
}

/// `mint_reward` accepts its accounts exactly when the payer, the authority and
/// the mint signed; the payer may be written; the authority is on the game's
/// list; the achievement belongs to the game and names this reward; the reward
/// may be written and is the achievement's; the player is the user's; the
/// player achievement is this player's for this achievement; the mint,
/// metadata, master edition and token account may be written; and the token
/// metadata program is at its address.
pub proof fn lemma_mint_reward_accepts_exactly(ctx: MintReward)
    ensures
        outcome(ctx.checks()) is Ok <==> {
            &&& ctx.payer.is_signer
            &&& ctx.authority.is_signer
            &&& ctx.mint.is_signer
            &&& ctx.payer.is_writable
            &&& ctx.game.data.auth@.contains(ctx.authority.key)
            &&& ctx.achievement.data.game == ctx.game.key
            &&& ctx.achievement.data.reward == Some(ctx.reward.key)
            &&& ctx.reward.is_writable
            &&& ctx.reward.data.achievement == ctx.achievement.key
            &&& ctx.player.data.user == ctx.user.key
            &&& ctx.player_achievement.data.player == ctx.player.key
            &&& ctx.player_achievement.data.achievement == ctx.achievement.key
            &&& ctx.mint.is_writable
            &&& ctx.metadata.is_writable
            &&& ctx.master_edition.is_writable
            &&& ctx.mint_nft_to.is_writable
            &&& ctx.token_metadata_program.key == token_metadata_program_key()
        },
{
    let c = ctx.checks();
    crate::error::lemma_outcome(c);
    assert(c.len() == 17);
    if reaches(c, c.len() as int) {
        assert(c[0].passed && c[1].passed && c[2].passed && c[3].passed && c[4].passed && c[5].passed && c[6].passed && c[7].passed && c[8].passed && c[9].passed && c[10].passed && c[11].passed && c[12].passed && c[13].passed && c[14].passed && c[15].passed && c[16].passed);
    }
    if (ctx.payer.is_signer) && (ctx.authority.is_signer) && (ctx.mint.is_signer) && (ctx.payer.is_writable) && (ctx.game.data.auth@.contains(ctx.authority.key)) && (ctx.achievement.data.game == ctx.game.key) && (ctx.achievement.data.reward == Some(ctx.reward.key)) && (ctx.reward.is_writable) && (ctx.reward.data.achievement == ctx.achievement.key) && (ctx.player.data.user == ctx.user.key) && (ctx.player_achievement.data.player == ctx.player.key) && (ctx.player_achievement.data.achievement == ctx.achievement.key) && (ctx.mint.is_writable) && (ctx.metadata.is_writable) && (ctx.master_edition.is_writable) && (ctx.mint_nft_to.is_writable) && (ctx.token_metadata_program.key == token_metadata_program_key()) {
        assert forall|j: int| 0 <= j < c.len() implies #[trigger] c[j].passed by {
            if j == 0 {} else if j == 1 {} else if j == 2 {} else if j == 3 {} else if j == 4 {} else if j == 5 {} else if j == 6 {} else if j == 7 {} else if j == 8 {} else if j == 9 {} else if j == 10 {} else if j == 11 {} else if j == 12 {} else if j == 13 {} else if j == 14 {} else if j == 15 {}
        }
    }
}

/// `mint_reward` refuses its accounts with `AccountNotSigner` when one of its
/// signers did not sign, whatever the other accounts are.
pub proof fn lemma_mint_reward_needs_signatures(ctx: MintReward)
    requires
        !((ctx.payer.is_signer) && (ctx.authority.is_signer) && (ctx.mint.is_signer)),
    ensures
        outcome(ctx.checks()) == Err::<(), AccountsError>(AccountsError::AccountNotSigner),
{
    let c = ctx.checks();
    if !(ctx.payer.is_signer) {
        crate::error::lemma_first_failure(c, 0);
    } else if !(ctx.authority.is_signer) {
        assert forall|j: int| 0 <= j < 1 && j < c.len() implies #[trigger] c[j].passed by {
            
        }
        crate::error::lemma_first_failure(c, 1);
    } else if !(ctx.mint.is_signer) {
        assert forall|j: int| 0 <= j < 2 && j < c.len() implies #[trigger] c[j].passed by {
            if j == 0 {}
        }
        crate::error::lemma_first_failure(c, 2);
    }
}

/// `verify_reward` accepts its accounts exactly when the payer and the
/// authority signed; the payer may be written; the authority is on the game's
/// list; the achievement belongs to the game and names this reward; the reward
/// sits at its derived address, is the achievement's and belongs to this
/// collection; the player is the user's; the player achievement is this
/// player's for this achievement, with this metadata; and the collection
/// metadata may be written.
pub proof fn lemma_verify_reward_accepts_exactly(ctx: VerifyReward, reward_address: Pubkey)
    ensures
        outcome(ctx.checks(reward_address)) is Ok <==> {
            &&& ctx.payer.is_signer
            &&& ctx.authority.is_signer
            &&& ctx.payer.is_writable
            &&& ctx.game.data.auth@.contains(ctx.authority.key)
            &&& ctx.achievement.data.game == ctx.game.key
            &&& ctx.achievement.data.reward == Some(ctx.reward.key)
            &&& ctx.reward.key == reward_address
            &&& ctx.reward.data.achievement == ctx.achievement.key
            &&& ctx.reward.data.collection_mint == Some(ctx.collection_mint.key)
            &&& ctx.player.data.user == ctx.user.key
            &&& ctx.player_achievement.data.player == ctx.player.key
            &&& ctx.player_achievement.data.achievement == ctx.achievement.key
            &&& ctx.player_achievement.data.metadata == Some(ctx.metadata_to_verify.key)
            &&& ctx.collection_metadata.is_writable
        },
{
    let c = ctx.checks(reward_address);
    crate::error::lemma_outcome(c);
    assert(c.len() == 14);
    if reaches(c, c.len() as int) {
        assert(c[0].passed && c[1].passed && c[2].passed && c[3].passed && c[4].passed && c[5].passed && c[6].passed && c[7].passed && c[8].passed && c[9].passed && c[10].passed && c[11].passed && c[12].passed && c[13].passed);
    }
    if (ctx.payer.is_signer) && (ctx.authority.is_signer) && (ctx.payer.is_writable) && (ctx.game.data.auth@.contains(ctx.authority.key)) && (ctx.achievement.data.game == ctx.game.key) && (ctx.achievement.data.reward == Some(ctx.reward.key)) && (ctx.reward.key == reward_address) && (ctx.reward.data.achievement == ctx.achievement.key) && (ctx.reward.data.collection_mint == Some(ctx.collection_mint.key)) && (ctx.player.data.user == ctx.user.key) && (ctx.player_achievement.data.player == ctx.player.key) && (ctx.player_achievement.data.achievement == ctx.achievement.key) && (ctx.player_achievement.data.metadata == Some(ctx.metadata_to_verify.key)) && (ctx.collection_metadata.is_writable) {
        assert forall|j: int| 0 <= j < c.len() implies #[trigger] c[j].passed by {
            if j == 0 {} else if j == 1 {} else if j == 2 {} else if j == 3 {} else if j == 4 {} else if j == 5 {} else if j == 6 {} else if j == 7 {} else if j == 8 {} else if j == 9 {} else if j == 10 {} else if j == 11 {} else if j == 12 {}
        }
    }
}

/// `verify_reward` refuses its accounts with `AccountNotSigner` when one of its
/// signers did not sign, whatever the other accounts are.
pub proof fn lemma_verify_reward_needs_signatures(ctx: VerifyReward, reward_address: Pubkey)
    requires
        !((ctx.payer.is_signer) && (ctx.authority.is_signer)),
    ensures
        outcome(ctx.checks(reward_address)) == Err::<(), AccountsError>(AccountsError::AccountNotSigner),
{
    let c = ctx.checks(reward_address);
    if !(ctx.payer.is_signer) {
        crate::error::lemma_first_failure(c, 0);
    } else if !(ctx.authority.is_signer) {
        assert forall|j: int| 0 <= j < 1 && j < c.len() implies #[trigger] c[j].passed by {
            
        }
        crate::error::lemma_first_failure(c, 1);
    }
}

/// The error with which `initialize_game` refuses its accounts: signatures are
/// checked first, then the accounts it creates, then the other accounts in
/// field order.
#[verifier::spinoff_prover]
#[verifier::rlimit(40)]
pub proof fn lemma_initialize_game_error(ctx: InitializeGame)
    ensures
        outcome(ctx.checks()) == {
            if !(ctx.creator.is_signer) {
                Err(AccountsError::AccountNotSigner)
            } else if !(!ctx.game.in_use) {
                Err(AccountsError::AccountAlreadyInUse)
            } else if !(ctx.creator.is_writable) {
                Err(AccountsError::ConstraintMut)
            } else {
                Ok::<(), AccountsError>(())
            }
        },
{
    let c = ctx.checks();
    crate::error::lemma_outcome(c);
    if !(ctx.creator.is_signer) {
        crate::error::lemma_first_failure(c, 0);
    } else if !(!ctx.game.in_use) {
        assert forall|j: int| 0 <= j < 1 && j < c.len() implies #[trigger] c[j].passed by {
        }
        crate::error::lemma_first_failure(c, 1);
    } else if !(ctx.creator.is_writable) {
        assert forall|j: int| 0 <= j < 2 && j < c.len() implies #[trigger] c[j].passed by {
            if j == 0 {}
        }
        crate::error::lemma_first_failure(c, 2);
    } else {
        assert forall|j: int| 0 <= j < c.len() implies #[trigger] c[j].passed by {
            if j == 0 {} else if j == 1 {}
        }
    }
}

/// The error with which `update_game` refuses its accounts: signatures are
/// checked first, then the accounts it creates, then the other accounts in
/// field order.
#[verifier::spinoff_prover]
#[verifier::rlimit(40)]
pub proof fn lemma_update_game_error(ctx: UpdateGame)
    ensures
        outcome(ctx.checks()) == {
            if !(ctx.authority.is_signer) {
                Err(AccountsError::AccountNotSigner)
            } else if !(ctx.payer.is_signer) {
                Err(AccountsError::AccountNotSigner)
            } else if !(ctx.game.data.auth@.contains(ctx.authority.key)) {
                Err(AccountsError::InvalidAuthority)
            } else if !(ctx.payer.is_writable) {
                Err(AccountsError::ConstraintMut)
            } else if !(ctx.game.is_writable) {
                Err(AccountsError::ConstraintMut)
            } else {
                Ok::<(), AccountsError>(())
            }
        },
{
    let c = ctx.checks();
    crate::error::lemma_outcome(c);
    if !(ctx.authority.is_signer) {
        crate::error::lemma_first_failure(c, 0);
    } else if !(ctx.payer.is_signer) {
        assert forall|j: int| 0 <= j < 1 && j < c.len() implies #[trigger] c[j].passed by {
        }
        crate::error::lemma_first_failure(c, 1);
    } else if !(ctx.game.data.auth@.contains(ctx.authority.key)) {
        assert forall|j: int| 0 <= j < 2 && j < c.len() implies #[trigger] c[j].passed by {
            if j == 0 {}
        }
        crate::error::lemma_first_failure(c, 2);
    } else if !(ctx.payer.is_writable) {
        assert forall|j: int| 0 <= j < 3 && j < c.len() implies #[trigger] c[j].passed by {
            if j == 0 {} else if j == 1 {}
        }
        crate::error::lemma_first_failure(c, 3);
    } else if !(ctx.game.is_writable) {
        assert forall|j: int| 0 <= j < 4 && j < c.len() implies #[trigger] c[j].passed by {
            if j == 0 {} else if j == 1 {} else if j == 2 {}
        }
        crate::error::lemma_first_failure(c, 4);
    } else {
        assert forall|j: int| 0 <= j < c.len() implies #[trigger] c[j].passed by {
            if j == 0 {} else if j == 1 {} else if j == 2 {} else if j == 3 {}
        }
    }
}

/// The error with which `add_achievement` refuses its accounts: signatures are
/// checked first, then the accounts it creates, then the other accounts in
/// field order.
#[verifier::spinoff_prover]
#[verifier::rlimit(40)]
pub proof fn lemma_add_achievement_error(ctx: AddAchievement, achievement_address: Pubkey)
    ensures
        outcome(ctx.checks(achievement_address)) == {
            if !(ctx.authority.is_signer) {
                Err(AccountsError::AccountNotSigner)
            } else if !(ctx.payer.is_signer) {
                Err(AccountsError::AccountNotSigner)
            } else if !(ctx.new_achievement.key == achievement_address) {
                Err(AccountsError::ConstraintSeeds)
            } else if !(!ctx.new_achievement.in_use) {
                Err(AccountsError::AccountAlreadyInUse)
            } else if !(ctx.game.data.auth@.contains(ctx.authority.key)) {
                Err(AccountsError::InvalidAuthority)
            } else if !(ctx.payer.is_writable) {
                Err(AccountsError::ConstraintMut)
            } else if !(ctx.game.is_writable) {
                Err(AccountsError::ConstraintMut)
            } else {
                Ok::<(), AccountsError>(())
            }
        },
{
    let c = ctx.checks(achievement_address);
    crate::error::lemma_outcome(c);
    if !(ctx.authority.is_signer) {
        crate::error::lemma_first_failure(c, 0);
    } else if !(ctx.payer.is_signer) {
        assert forall|j: int| 0 <= j < 1 && j < c.len() implies #[trigger] c[j].passed by {
        }
        crate::error::lemma_first_failure(c, 1);
    } else if !(ctx.new_achievement.key == achievement_address) {
        assert forall|j: int| 0 <= j < 2 && j < c.len() implies #[trigger] c[j].passed by {
            if j == 0 {}
        }
        crate::error::lemma_first_failure(c, 2);
    } else if !(!ctx.new_achievement.in_use) {
        assert forall|j: int| 0 <= j < 3 && j < c.len() implies #[trigger] c[j].passed by {
            if j == 0 {} else if j == 1 {}
        }
        crate::error::lemma_first_failure(c, 3);
    } else if !(ctx.game.data.auth@.contains(ctx.authority.key)) {
        assert forall|j: int| 0 <= j < 4 && j < c.len() implies #[trigger] c[j].passed by {
            if j == 0 {} else if j == 1 {} else if j == 2 {}
        }
        crate::error::lemma_first_failure(c, 4);
    } else if !(ctx.payer.is_writable) {
        assert forall|j: int| 0 <= j < 5 && j < c.len() implies #[trigger] c[j].passed by {
            if j == 0 {} else if j == 1 {} else if j == 2 {} else if j == 3 {}
        }
        crate::error::lemma_first_failure(c, 5);
    } else if !(ctx.game.is_writable) {
        assert forall|j: int| 0 <= j < 6 && j < c.len() implies #[trigger] c[j].passed by {
            if j == 0 {} else if j == 1 {} else if j == 2 {} else if j == 3 {} else if j == 4 {}
        }
        crate::error::lemma_first_failure(c, 6);
    } else {
        assert forall|j: int| 0 <= j < c.len() implies #[trigger] c[j].passed by {
            if j == 0 {} else if j == 1 {} else if j == 2 {} else if j == 3 {} else if j == 4 {} else if j == 5 {}
        }
    }
}

/// The error with which `update_achievement` refuses its accounts: signatures
/// are checked first, then the accounts it creates, then the other accounts in
/// field order.
#[verifier::spinoff_prover]
#[verifier::rlimit(40)]
pub proof fn lemma_update_achievement_error(ctx: UpdateAchievement)
    ensures
        outcome(ctx.checks()) == {
            if !(ctx.authority.is_signer) {
                Err(AccountsError::AccountNotSigner)
            } else if !(ctx.game.data.auth@.contains(ctx.authority.key)) {
                Err(AccountsError::InvalidAuthority)
            } else if !(ctx.achievement.is_writable) {
                Err(AccountsError::ConstraintMut)
            } else if !(ctx.achievement.data.game == ctx.game.key) {
                Err(AccountsError::ConstraintHasOne)
            } else {
                Ok::<(), AccountsError>(())
            }
        },
{
    let c = ctx.checks();
    crate::error::lemma_outcome(c);
    if !(ctx.authority.is_signer) {
        crate::error::lemma_first_failure(c, 0);
    } else if !(ctx.game.data.auth@.contains(ctx.authority.key)) {
        assert forall|j: int| 0 <= j < 1 && j < c.len() implies #[trigger] c[j].passed by {
        }
        crate::error::lemma_first_failure(c, 1);
    } else if !(ctx.achievement.is_writable) {
        assert forall|j: int| 0 <= j < 2 && j < c.len() implies #[trigger] c[j].passed by {
            if j == 0 {}
        }
        crate::error::lemma_first_failure(c, 2);
    } else if !(ctx.achievement.data.game == ctx.game.key) {
        assert forall|j: int| 0 <= j < 3 && j < c.len() implies #[trigger] c[j].passed by {
            if j == 0 {} else if j == 1 {}
        }
        crate::error::lemma_first_failure(c, 3);
    } else {
        assert forall|j: int| 0 <= j < c.len() implies #[trigger] c[j].passed by {
            if j == 0 {} else if j == 1 {} else if j == 2 {}
        }
    }
}

/// The error with which `add_leaderboard` refuses its accounts: signatures are
/// checked first, then the accounts it creates, then the other accounts in
/// field order.
#[verifier::spinoff_prover]
#[verifier::rlimit(40)]
pub proof fn lemma_add_leaderboard_error(ctx: AddLeaderBoard, scores_to_retain: u8, leaderboard_address: Pubkey, top_entries_address: Pubkey)
    ensures
        outcome(ctx.checks(scores_to_retain, leaderboard_address, top_entries_address)) == {
            if !(ctx.authority.is_signer) {
                Err(AccountsError::AccountNotSigner)
            } else if !(ctx.payer.is_signer) {
                Err(AccountsError::AccountNotSigner)
            } else if !(ctx.leaderboard.key == leaderboard_address) {
                Err(AccountsError::ConstraintSeeds)
            } else if !(!ctx.leaderboard.in_use) {
                Err(AccountsError::AccountAlreadyInUse)
            } else if !((match ctx.top_entries { Some(a) => a.key == top_entries_address, None => true })) {
                Err(AccountsError::ConstraintSeeds)
            } else if !((match ctx.top_entries { Some(a) => !a.in_use, None => true })) {
                Err(AccountsError::AccountAlreadyInUse)
            } else if !((match ctx.top_entries { Some(a) => scores_to_retain > 0, None => true })) {
                Err(AccountsError::ConstraintRaw)
            } else if !(ctx.game.data.auth@.contains(ctx.authority.key)) {
                Err(AccountsError::InvalidAuthority)
            } else if !(ctx.payer.is_writable) {
                Err(AccountsError::ConstraintMut)
            } else if !(ctx.game.is_writable) {
                Err(AccountsError::ConstraintMut)
            } else {
                Ok::<(), AccountsError>(())
            }
        },
{
    let c = ctx.checks(scores_to_retain, leaderboard_address, top_entries_address);
    crate::error::lemma_outcome(c);
    if !(ctx.authority.is_signer) {
        crate::error::lemma_first_failure(c, 0);
    } else if !(ctx.payer.is_signer) {
        assert forall|j: int| 0 <= j < 1 && j < c.len() implies #[trigger] c[j].passed by {
        }
        crate::error::lemma_first_failure(c, 1);
    } else if !(ctx.leaderboard.key == leaderboard_address) {
        assert forall|j: int| 0 <= j < 2 && j < c.len() implies #[trigger] c[j].passed by {
            if j == 0 {}
        }
        crate::error::lemma_first_failure(c, 2);
    } else if !(!ctx.leaderboard.in_use) {
        assert forall|j: int| 0 <= j < 3 && j < c.len() implies #[trigger] c[j].passed by {
            if j == 0 {} else if j == 1 {}
        }
        crate::error::lemma_first_failure(c, 3);
    } else if !((match ctx.top_entries { Some(a) => a.key == top_entries_address, None => true })) {
        assert forall|j: int| 0 <= j < 4 && j < c.len() implies #[trigger] c[j].passed by {
            if j == 0 {} else if j == 1 {} else if j == 2 {}
        }
        crate::error::lemma_first_failure(c, 4);
    } else if !((match ctx.top_entries { Some(a) => !a.in_use, None => true })) {
        assert forall|j: int| 0 <= j < 5 && j < c.len() implies #[trigger] c[j].passed by {
            if j == 0 {} else if j == 1 {} else if j == 2 {} else if j == 3 {}
        }
        crate::error::lemma_first_failure(c, 5);
    } else if !((match ctx.top_entries { Some(a) => scores_to_retain > 0, None => true })) {
        assert forall|j: int| 0 <= j < 6 && j < c.len() implies #[trigger] c[j].passed by {
            if j == 0 {} else if j == 1 {} else if j == 2 {} else if j == 3 {} else if j == 4 {}
        }
        crate::error::lemma_first_failure(c, 6);
    } else if !(ctx.game.data.auth@.contains(ctx.authority.key)) {
        assert forall|j: int| 0 <= j < 7 && j < c.len() implies #[trigger] c[j].passed by {
            if j == 0 {} else if j == 1 {} else if j == 2 {} else if j == 3 {} else if j == 4 {} else if j == 5 {}
        }
        crate::error::lemma_first_failure(c, 7);
    } else if !(ctx.payer.is_writable) {
        assert forall|j: int| 0 <= j < 8 && j < c.len() implies #[trigger] c[j].passed by {
            if j == 0 {} else if j == 1 {} else if j == 2 {} else if j == 3 {} else if j == 4 {} else if j == 5 {} else if j == 6 {}
        }
        crate::error::lemma_first_failure(c, 8);
    } else if !(ctx.game.is_writable) {
        assert forall|j: int| 0 <= j < 9 && j < c.len() implies #[trigger] c[j].passed by {
            if j == 0 {} else if j == 1 {} else if j == 2 {} else if j == 3 {} else if j == 4 {} else if j == 5 {} else if j == 6 {} else if j == 7 {}
        }
        crate::error::lemma_first_failure(c, 9);
    } else {
        assert forall|j: int| 0 <= j < c.len() implies #[trigger] c[j].passed by {
            if j == 0 {} else if j == 1 {} else if j == 2 {} else if j == 3 {} else if j == 4 {} else if j == 5 {} else if j == 6 {} else if j == 7 {} else if j == 8 {}
        }
    }
}

/// The error with which `create_player` refuses its accounts: signatures are
/// checked first, then the accounts it creates, then the other accounts in
/// field order.
#[verifier::spinoff_prover]
#[verifier::rlimit(40)]
pub proof fn lemma_create_player_error(ctx: NewPlayer, player_address: Pubkey)
    ensures
        outcome(ctx.checks(player_address)) == {
            if !(ctx.payer.is_signer) {
                Err(AccountsError::AccountNotSigner)
            } else if !(ctx.user.is_signer) {
                Err(AccountsError::AccountNotSigner)
            } else if !(ctx.player_info.key == player_address) {
                Err(AccountsError::ConstraintSeeds)
            } else if !(!ctx.player_info.in_use) {
                Err(AccountsError::AccountAlreadyInUse)
            } else if !(ctx.payer.is_writable) {
                Err(AccountsError::ConstraintMut)
            } else {
                Ok::<(), AccountsError>(())
            }
        },
{
    let c = ctx.checks(player_address);
    crate::error::lemma_outcome(c);
    if !(ctx.payer.is_signer) {
        crate::error::lemma_first_failure(c, 0);
    } else if !(ctx.user.is_signer) {
        assert forall|j: int| 0 <= j < 1 && j < c.len() implies #[trigger] c[j].passed by {
        }
        crate::error::lemma_first_failure(c, 1);
    } else if !(ctx.player_info.key == player_address) {
        assert forall|j: int| 0 <= j < 2 && j < c.len() implies #[trigger] c[j].passed by {
            if j == 0 {}
        }
        crate::error::lemma_first_failure(c, 2);
    } else if !(!ctx.player_info.in_use) {
        assert forall|j: int| 0 <= j < 3 && j < c.len() implies #[trigger] c[j].passed by {
            if j == 0 {} else if j == 1 {}
        }
        crate::error::lemma_first_failure(c, 3);
    } else if !(ctx.payer.is_writable) {
        assert forall|j: int| 0 <= j < 4 && j < c.len() implies #[trigger] c[j].passed by {
            if j == 0 {} else if j == 1 {} else if j == 2 {}
        }
        crate::error::lemma_first_failure(c, 4);
    } else {
        assert forall|j: int| 0 <= j < c.len() implies #[trigger] c[j].passed by {
            if j == 0 {} else if j == 1 {} else if j == 2 {} else if j == 3 {}
        }
    }
}

/// The error with which `register_player` refuses its accounts: signatures are
/// checked first, then the accounts it creates, then the other accounts in
/// field order.
#[verifier::spinoff_prover]
#[verifier::rlimit(40)]
pub proof fn lemma_register_player_error(ctx: RegisterPlayer, list_address: Pubkey)
    ensures
        outcome(ctx.checks(list_address)) == {
            if !(ctx.payer.is_signer) {
                Err(AccountsError::AccountNotSigner)
            } else if !(ctx.user.is_signer) {
                Err(AccountsError::AccountNotSigner)
            } else if !(ctx.new_list.key == list_address) {
                Err(AccountsError::ConstraintSeeds)
            } else if !(!ctx.new_list.in_use) {
                Err(AccountsError::AccountAlreadyInUse)
            } else if !(ctx.payer.is_writable) {
                Err(AccountsError::ConstraintMut)
            } else if !(ctx.player_info.data.user == ctx.user.key) {
                Err(AccountsError::ConstraintHasOne)
            } else if !(ctx.leaderboard.data.game == ctx.game.key) {
                Err(AccountsError::ConstraintHasOne)
            } else {
                Ok::<(), AccountsError>(())
            }
        },
{
    let c = ctx.checks(list_address);
    crate::error::lemma_outcome(c);
    if !(ctx.payer.is_signer) {
        crate::error::lemma_first_failure(c, 0);
    } else if !(ctx.user.is_signer) {
        assert forall|j: int| 0 <= j < 1 && j < c.len() implies #[trigger] c[j].passed by {
        }
        crate::error::lemma_first_failure(c, 1);
    } else if !(ctx.new_list.key == list_address) {
        assert forall|j: int| 0 <= j < 2 && j < c.len() implies #[trigger] c[j].passed by {
            if j == 0 {}
        }
        crate::error::lemma_first_failure(c, 2);
    } else if !(!ctx.new_list.in_use) {
        assert forall|j: int| 0 <= j < 3 && j < c.len() implies #[trigger] c[j].passed by {
            if j == 0 {} else if j == 1 {}
        }
        crate::error::lemma_first_failure(c, 3);
    } else if !(ctx.payer.is_writable) {
        assert forall|j: int| 0 <= j < 4 && j < c.len() implies #[trigger] c[j].passed by {
            if j == 0 {} else if j == 1 {} else if j == 2 {}
        }
        crate::error::lemma_first_failure(c, 4);
    } else if !(ctx.player_info.data.user == ctx.user.key) {
        assert forall|j: int| 0 <= j < 5 && j < c.len() implies #[trigger] c[j].passed by {
            if j == 0 {} else if j == 1 {} else if j == 2 {} else if j == 3 {}
        }
        crate::error::lemma_first_failure(c, 5);
    } else if !(ctx.leaderboard.data.game == ctx.game.key) {
        assert forall|j: int| 0 <= j < 6 && j < c.len() implies #[trigger] c[j].passed by {
            if j == 0 {} else if j == 1 {} else if j == 2 {} else if j == 3 {} else if j == 4 {}
        }
        crate::error::lemma_first_failure(c, 6);
    } else {
        assert forall|j: int| 0 <= j < c.len() implies #[trigger] c[j].passed by {
            if j == 0 {} else if j == 1 {} else if j == 2 {} else if j == 3 {} else if j == 4 {} else if j == 5 {}
        }
    }
}

/// The error with which `update_player` refuses its accounts: signatures are
/// checked first, then the accounts it creates, then the other accounts in
/// field order.
#[verifier::spinoff_prover]
#[verifier::rlimit(40)]
pub proof fn lemma_update_player_error(ctx: UpdatePlayer)
    ensures
        outcome(ctx.checks()) == {
            if !(ctx.user.is_signer) {
                Err(AccountsError::AccountNotSigner)
            } else if !(ctx.player_info.is_writable) {
                Err(AccountsError::ConstraintMut)
            } else {
                Ok::<(), AccountsError>(())
            }
        },
{
    let c = ctx.checks();
    crate::error::lemma_outcome(c);
    if !(ctx.user.is_signer) {
        crate::error::lemma_first_failure(c, 0);
    } else if !(ctx.player_info.is_writable) {
        assert forall|j: int| 0 <= j < 1 && j < c.len() implies #[trigger] c[j].passed by {
        }
        crate::error::lemma_first_failure(c, 1);
    } else {
        assert forall|j: int| 0 <= j < c.len() implies #[trigger] c[j].passed by {
            if j == 0 {}
        }
    }
}

/// The error with which `submit_score` refuses its accounts: signatures are
/// checked first, then the accounts it creates, then the other accounts in
/// field order.
#[verifier::spinoff_prover]
#[verifier::rlimit(40)]
pub proof fn lemma_submit_score_error(ctx: SubmitScore)
    ensures
        outcome(ctx.checks()) == {
            if !(ctx.user.is_signer) {
                Err(AccountsError::AccountNotSigner)
            } else if !(ctx.payer.is_signer) {
                Err(AccountsError::AccountNotSigner)
            } else if !(ctx.authority.is_signer) {
                Err(AccountsError::AccountNotSigner)
            } else if !(ctx.payer.is_writable) {
                Err(AccountsError::ConstraintMut)
            } else if !(ctx.game.data.auth@.contains(ctx.authority.key)) {
                Err(AccountsError::InvalidAuthority)
            } else if !(ctx.player_info.data.user == ctx.user.key) {
                Err(AccountsError::ConstraintHasOne)
            } else if !(ctx.leaderboard.data.game == ctx.game.key) {
                Err(AccountsError::ConstraintHasOne)
            } else if !((match ctx.top_entries { Some(a) => a.is_writable, None => true })) {
                Err(AccountsError::ConstraintMut)
            } else if !((match ctx.top_entries { Some(a) => (match ctx.leaderboard.data.top_entries { Some(k) => k == a.key, None => true }), None => true })) {
                Err(AccountsError::ConstraintRaw)
            } else if !(ctx.player_entries.is_writable) {
                Err(AccountsError::ConstraintMut)
            } else if !(ctx.player_entries.data.player_info == ctx.player_info.key) {
                Err(AccountsError::ConstraintHasOne)
            } else if !(ctx.player_entries.data.leaderboard == ctx.leaderboard.key) {
                Err(AccountsError::ConstraintHasOne)
            } else {
                Ok::<(), AccountsError>(())
            }
        },
{
    let c = ctx.checks();
    crate::error::lemma_outcome(c);
    if !(ctx.user.is_signer) {
        crate::error::lemma_first_failure(c, 0);
    } else if !(ctx.payer.is_signer) {
        assert forall|j: int| 0 <= j < 1 && j < c.len() implies #[trigger] c[j].passed by {
        }
        crate::error::lemma_first_failure(c, 1);
    } else if !(ctx.authority.is_signer) {
        assert forall|j: int| 0 <= j < 2 && j < c.len() implies #[trigger] c[j].passed by {
            if j == 0 {}
        }
        crate::error::lemma_first_failure(c, 2);
    } else if !(ctx.payer.is_writable) {
        assert forall|j: int| 0 <= j < 3 && j < c.len() implies #[trigger] c[j].passed by {
            if j == 0 {} else if j == 1 {}
        }
        crate::error::lemma_first_failure(c, 3);
    } else if !(ctx.game.data.auth@.contains(ctx.authority.key)) {
        assert forall|j: int| 0 <= j < 4 && j < c.len() implies #[trigger] c[j].passed by {
            if j == 0 {} else if j == 1 {} else if j == 2 {}
        }
        crate::error::lemma_first_failure(c, 4);
    } else if !(ctx.player_info.data.user == ctx.user.key) {
        assert forall|j: int| 0 <= j < 5 && j < c.len() implies #[trigger] c[j].passed by {
            if j == 0 {} else if j == 1 {} else if j == 2 {} else if j == 3 {}
        }
        crate::error::lemma_first_failure(c, 5);
    } else if !(ctx.leaderboard.data.game == ctx.game.key) {
        assert forall|j: int| 0 <= j < 6 && j < c.len() implies #[trigger] c[j].passed by {
            if j == 0 {} else if j == 1 {} else if j == 2 {} else if j == 3 {} else if j == 4 {}
        }
        crate::error::lemma_first_failure(c, 6);
    } else if !((match ctx.top_entries { Some(a) => a.is_writable, None => true })) {
        assert forall|j: int| 0 <= j < 7 && j < c.len() implies #[trigger] c[j].passed by {
            if j == 0 {} else if j == 1 {} else if j == 2 {} else if j == 3 {} else if j == 4 {} else if j == 5 {}
        }
        crate::error::lemma_first_failure(c, 7);
    } else if !((match ctx.top_entries { Some(a) => (match ctx.leaderboard.data.top_entries { Some(k) => k == a.key, None => true }), None => true })) {
        assert forall|j: int| 0 <= j < 8 && j < c.len() implies #[trigger] c[j].passed by {
            if j == 0 {} else if j == 1 {} else if j == 2 {} else if j == 3 {} else if j == 4 {} else if j == 5 {} else if j == 6 {}
        }
        crate::error::lemma_first_failure(c, 8);
    } else if !(ctx.player_entries.is_writable) {
        assert forall|j: int| 0 <= j < 9 && j < c.len() implies #[trigger] c[j].passed by {
            if j == 0 {} else if j == 1 {} else if j == 2 {} else if j == 3 {} else if j == 4 {} else if j == 5 {} else if j == 6 {} else if j == 7 {}
        }
        crate::error::lemma_first_failure(c, 9);
    } else if !(ctx.player_entries.data.player_info == ctx.player_info.key) {
        assert forall|j: int| 0 <= j < 10 && j < c.len() implies #[trigger] c[j].passed by {
            if j == 0 {} else if j == 1 {} else if j == 2 {} else if j == 3 {} else if j == 4 {} else if j == 5 {} else if j == 6 {} else if j == 7 {} else if j == 8 {}
        }
        crate::error::lemma_first_failure(c, 10);
    } else if !(ctx.player_entries.data.leaderboard == ctx.leaderboard.key) {
        assert forall|j: int| 0 <= j < 11 && j < c.len() implies #[trigger] c[j].passed by {
            if j == 0 {} else if j == 1 {} else if j == 2 {} else if j == 3 {} else if j == 4 {} else if j == 5 {} else if j == 6 {} else if j == 7 {} else if j == 8 {} else if j == 9 {}
        }
        crate::error::lemma_first_failure(c, 11);
    } else {
        assert forall|j: int| 0 <= j < c.len() implies #[trigger] c[j].passed by {
            if j == 0 {} else if j == 1 {} else if j == 2 {} else if j == 3 {} else if j == 4 {} else if j == 5 {} else if j == 6 {} else if j == 7 {} else if j == 8 {} else if j == 9 {} else if j == 10 {}
        }
    }
}

/// The error with which `initiate_merge` refuses its accounts: signatures are
/// checked first, then the accounts it creates, then the other accounts in
/// field order.
#[verifier::spinoff_prover]
#[verifier::rlimit(40)]
pub proof fn lemma_initiate_merge_error(ctx: InitiateMerge)
    ensures
        outcome(ctx.checks()) == {
            if !(ctx.payer.is_signer) {
                Err(AccountsError::AccountNotSigner)
            } else if !(ctx.user.is_signer) {
                Err(AccountsError::AccountNotSigner)
            } else if !(!ctx.merge_account.in_use) {
                Err(AccountsError::AccountAlreadyInUse)
            } else if !(ctx.payer.is_writable) {
                Err(AccountsError::ConstraintMut)
            } else if !(ctx.player.data.user == ctx.user.key) {
                Err(AccountsError::ConstraintHasOne)
            } else {
                Ok::<(), AccountsError>(())
            }
        },
{
    let c = ctx.checks();
    crate::error::lemma_outcome(c);
    if !(ctx.payer.is_signer) {
        crate::error::lemma_first_failure(c, 0);
    } else if !(ctx.user.is_signer) {
        assert forall|j: int| 0 <= j < 1 && j < c.len() implies #[trigger] c[j].passed by {
        }
        crate::error::lemma_first_failure(c, 1);
    } else if !(!ctx.merge_account.in_use) {
        assert forall|j: int| 0 <= j < 2 && j < c.len() implies #[trigger] c[j].passed by {
            if j == 0 {}
        }
        crate::error::lemma_first_failure(c, 2);
    } else if !(ctx.payer.is_writable) {
        assert forall|j: int| 0 <= j < 3 && j < c.len() implies #[trigger] c[j].passed by {
            if j == 0 {} else if j == 1 {}
        }
        crate::error::lemma_first_failure(c, 3);
    } else if !(ctx.player.data.user == ctx.user.key) {
        assert forall|j: int| 0 <= j < 4 && j < c.len() implies #[trigger] c[j].passed by {
            if j == 0 {} else if j == 1 {} else if j == 2 {}
        }
        crate::error::lemma_first_failure(c, 4);
    } else {
        assert forall|j: int| 0 <= j < c.len() implies #[trigger] c[j].passed by {
            if j == 0 {} else if j == 1 {} else if j == 2 {} else if j == 3 {}
        }
    }
}

/// The error with which `register_merge_approval` refuses its accounts:
/// signatures are checked first, then the accounts it creates, then the other
/// accounts in field order.
#[verifier::spinoff_prover]
#[verifier::rlimit(40)]
pub proof fn lemma_register_merge_approval_error(ctx: RegisterMergeApproval)
    ensures
        outcome(ctx.checks()) == {
            if !(ctx.user.is_signer) {
                Err(AccountsError::AccountNotSigner)
            } else if !(ctx.player_info.data.user == ctx.user.key) {
                Err(AccountsError::ConstraintHasOne)
            } else if !(ctx.merge_account.is_writable) {
                Err(AccountsError::ConstraintMut)
            } else {
                Ok::<(), AccountsError>(())
            }
        },
{
    let c = ctx.checks();
    crate::error::lemma_outcome(c);
    if !(ctx.user.is_signer) {
        crate::error::lemma_first_failure(c, 0);
    } else if !(ctx.player_info.data.user == ctx.user.key) {
        assert forall|j: int| 0 <= j < 1 && j < c.len() implies #[trigger] c[j].passed by {
        }
        crate::error::lemma_first_failure(c, 1);
    } else if !(ctx.merge_account.is_writable) {
        assert forall|j: int| 0 <= j < 2 && j < c.len() implies #[trigger] c[j].passed by {
            if j == 0 {}
        }
        crate::error::lemma_first_failure(c, 2);
    } else {
        assert forall|j: int| 0 <= j < c.len() implies #[trigger] c[j].passed by {
            if j == 0 {} else if j == 1 {}
        }
    }
}

/// The error with which `unlock_player_achievement` refuses its accounts:
/// signatures are checked first, then the accounts it creates, then the other
/// accounts in field order.
#[verifier::spinoff_prover]
#[verifier::rlimit(40)]
pub proof fn lemma_unlock_player_achievement_error(ctx: UnlockPlayerAchievement, player_achievement_address: Pubkey)
    ensures
        outcome(ctx.checks(player_achievement_address)) == {
            if !(ctx.authority.is_signer) {
                Err(AccountsError::AccountNotSigner)
            } else if !(ctx.payer.is_signer) {
                Err(AccountsError::AccountNotSigner)
            } else if !(ctx.user.is_signer) {
                Err(AccountsError::AccountNotSigner)
            } else if !(ctx.player_achievement.key == player_achievement_address) {
                Err(AccountsError::ConstraintSeeds)
            } else if !(!ctx.player_achievement.in_use) {
                Err(AccountsError::AccountAlreadyInUse)
            } else if !(ctx.game.data.auth@.contains(ctx.authority.key)) {
                Err(AccountsError::InvalidAuthority)
            } else if !(ctx.payer.is_writable) {
                Err(AccountsError::ConstraintMut)
            } else if !(ctx.player_info.data.user == ctx.user.key) {
                Err(AccountsError::ConstraintHasOne)
            } else if !(ctx.player_entry.data.player_info == ctx.player_info.key) {
                Err(AccountsError::ConstraintHasOne)
            } else if !(ctx.player_entry.data.leaderboard == ctx.leaderboard.key) {
                Err(AccountsError::ConstraintHasOne)
            } else if !(ctx.leaderboard.data.game == ctx.game.key) {
                Err(AccountsError::ConstraintHasOne)
            } else if !(ctx.achievement.data.game == ctx.game.key) {
                Err(AccountsError::ConstraintHasOne)
            } else {
                Ok::<(), AccountsError>(())
            }
        },
{
    let c = ctx.checks(player_achievement_address);
    crate::error::lemma_outcome(c);
    if !(ctx.authority.is_signer) {
        crate::error::lemma_first_failure(c, 0);
    } else if !(ctx.payer.is_signer) {
        assert forall|j: int| 0 <= j < 1 && j < c.len() implies #[trigger] c[j].passed by {
        }
        crate::error::lemma_first_failure(c, 1);
    } else if !(ctx.user.is_signer) {
        assert forall|j: int| 0 <= j < 2 && j < c.len() implies #[trigger] c[j].passed by {
            if j == 0 {}
        }
        crate::error::lemma_first_failure(c, 2);
    } else if !(ctx.player_achievement.key == player_achievement_address) {
        assert forall|j: int| 0 <= j < 3 && j < c.len() implies #[trigger] c[j].passed by {
            if j == 0 {} else if j == 1 {}
        }
        crate::error::lemma_first_failure(c, 3);
    } else if !(!ctx.player_achievement.in_use) {
        assert forall|j: int| 0 <= j < 4 && j < c.len() implies #[trigger] c[j].passed by {
            if j == 0 {} else if j == 1 {} else if j == 2 {}
        }
        crate::error::lemma_first_failure(c, 4);
    } else if !(ctx.game.data.auth@.contains(ctx.authority.key)) {
        assert forall|j: int| 0 <= j < 5 && j < c.len() implies #[trigger] c[j].passed by {
            if j == 0 {} else if j == 1 {} else if j == 2 {} else if j == 3 {}
        }
        crate::error::lemma_first_failure(c, 5);
    } else if !(ctx.payer.is_writable) {
        assert forall|j: int| 0 <= j < 6 && j < c.len() implies #[trigger] c[j].passed by {
            if j == 0 {} else if j == 1 {} else if j == 2 {} else if j == 3 {} else if j == 4 {}
        }
        crate::error::lemma_first_failure(c, 6);
    } else if !(ctx.player_info.data.user == ctx.user.key) {
        assert forall|j: int| 0 <= j < 7 && j < c.len() implies #[trigger] c[j].passed by {
            if j == 0 {} else if j == 1 {} else if j == 2 {} else if j == 3 {} else if j == 4 {} else if j == 5 {}
        }
        crate::error::lemma_first_failure(c, 7);
    } else if !(ctx.player_entry.data.player_info == ctx.player_info.key) {
        assert forall|j: int| 0 <= j < 8 && j < c.len() implies #[trigger] c[j].passed by {
            if j == 0 {} else if j == 1 {} else if j == 2 {} else if j == 3 {} else if j == 4 {} else if j == 5 {} else if j == 6 {}
        }
        crate::error::lemma_first_failure(c, 8);
    } else if !(ctx.player_entry.data.leaderboard == ctx.leaderboard.key) {
        assert forall|j: int| 0 <= j < 9 && j < c.len() implies #[trigger] c[j].passed by {
            if j == 0 {} else if j == 1 {} else if j == 2 {} else if j == 3 {} else if j == 4 {} else if j == 5 {} else if j == 6 {} else if j == 7 {}
        }
        crate::error::lemma_first_failure(c, 9);
    } else if !(ctx.leaderboard.data.game == ctx.game.key) {
        assert forall|j: int| 0 <= j < 10 && j < c.len() implies #[trigger] c[j].passed by {
            if j == 0 {} else if j == 1 {} else if j == 2 {} else if j == 3 {} else if j == 4 {} else if j == 5 {} else if j == 6 {} else if j == 7 {} else if j == 8 {}
        }
        crate::error::lemma_first_failure(c, 10);
    } else if !(ctx.achievement.data.game == ctx.game.key) {
        assert forall|j: int| 0 <= j < 11 && j < c.len() implies #[trigger] c[j].passed by {
            if j == 0 {} else if j == 1 {} else if j == 2 {} else if j == 3 {} else if j == 4 {} else if j == 5 {} else if j == 6 {} else if j == 7 {} else if j == 8 {} else if j == 9 {}
        }
        crate::error::lemma_first_failure(c, 11);
    } else {
        assert forall|j: int| 0 <= j < c.len() implies #[trigger] c[j].passed by {
            if j == 0 {} else if j == 1 {} else if j == 2 {} else if j == 3 {} else if j == 4 {} else if j == 5 {} else if j == 6 {} else if j == 7 {} else if j == 8 {} else if j == 9 {} else if j == 10 {}
        }
    }
}

/// The error with which `add_reward` refuses its accounts: signatures are
/// checked first, then the accounts it creates, then the other accounts in
/// field order.
#[verifier::spinoff_prover]
#[verifier::rlimit(40)]
pub proof fn lemma_add_reward_error(ctx: AddReward, reward_address: Pubkey)
    ensures
        outcome(ctx.checks(reward_address)) == {
            if !(ctx.authority.is_signer) {
                Err(AccountsError::AccountNotSigner)
            } else if !(ctx.payer.is_signer) {
                Err(AccountsError::AccountNotSigner)
            } else if !((match ctx.collection_update_auth { Some(a) => a.is_signer, None => true })) {
                Err(AccountsError::AccountNotSigner)
            } else if !(ctx.new_reward.key == reward_address) {
                Err(AccountsError::ConstraintSeeds)
            } else if !(!ctx.new_reward.in_use) {
                Err(AccountsError::AccountAlreadyInUse)
            } else if !(ctx.game.data.auth@.contains(ctx.authority.key)) {
                Err(AccountsError::InvalidAuthority)
            } else if !(ctx.payer.is_writable) {
                Err(AccountsError::ConstraintMut)
            } else if !(ctx.achievement.is_writable) {
                Err(AccountsError::ConstraintMut)
            } else if !(ctx.achievement.data.game == ctx.game.key) {
                Err(AccountsError::ConstraintHasOne)
            } else if !((match ctx.collection_metadata { Some(a) => a.is_writable, None => true })) {
                Err(AccountsError::ConstraintMut)
            } else if !(ctx.token_metadata_program.key == token_metadata_program_key()) {
                Err(AccountsError::ConstraintAddress)
            } else {
                Ok::<(), AccountsError>(())
            }
        },
{
    let c = ctx.checks(reward_address);
    crate::error::lemma_outcome(c);
    if !(ctx.authority.is_signer) {
        crate::error::lemma_first_failure(c, 0);
    } else if !(ctx.payer.is_signer) {
        assert forall|j: int| 0 <= j < 1 && j < c.len() implies #[trigger] c[j].passed by {
        }
        crate::error::lemma_first_failure(c, 1);
    } else if !((match ctx.collection_update_auth { Some(a) => a.is_signer, None => true })) {
        assert forall|j: int| 0 <= j < 2 && j < c.len() implies #[trigger] c[j].passed by {
            if j == 0 {}
        }
        crate::error::lemma_first_failure(c, 2);
    } else if !(ctx.new_reward.key == reward_address) {
        assert forall|j: int| 0 <= j < 3 && j < c.len() implies #[trigger] c[j].passed by {
            if j == 0 {} else if j == 1 {}
        }
        crate::error::lemma_first_failure(c, 3);
    } else if !(!ctx.new_reward.in_use) {
        assert forall|j: int| 0 <= j < 4 && j < c.len() implies #[trigger] c[j].passed by {
            if j == 0 {} else if j == 1 {} else if j == 2 {}
        }
        crate::error::lemma_first_failure(c, 4);
    } else if !(ctx.game.data.auth@.contains(ctx.authority.key)) {
        assert forall|j: int| 0 <= j < 5 && j < c.len() implies #[trigger] c[j].passed by {
            if j == 0 {} else if j == 1 {} else if j == 2 {} else if j == 3 {}
        }
        crate::error::lemma_first_failure(c, 5);
    } else if !(ctx.payer.is_writable) {
        assert forall|j: int| 0 <= j < 6 && j < c.len() implies #[trigger] c[j].passed by {
            if j == 0 {} else if j == 1 {} else if j == 2 {} else if j == 3 {} else if j == 4 {}
        }
        crate::error::lemma_first_failure(c, 6);
    } else if !(ctx.achievement.is_writable) {
        assert forall|j: int| 0 <= j < 7 && j < c.len() implies #[trigger] c[j].passed by {
            if j == 0 {} else if j == 1 {} else if j == 2 {} else if j == 3 {} else if j == 4 {} else if j == 5 {}
        }
        crate::error::lemma_first_failure(c, 7);
    } else if !(ctx.achievement.data.game == ctx.game.key) {
        assert forall|j: int| 0 <= j < 8 && j < c.len() implies #[trigger] c[j].passed by {
            if j == 0 {} else if j == 1 {} else if j == 2 {} else if j == 3 {} else if j == 4 {} else if j == 5 {} else if j == 6 {}
        }
        crate::error::lemma_first_failure(c, 8);
    } else if !((match ctx.collection_metadata { Some(a) => a.is_writable, None => true })) {
        assert forall|j: int| 0 <= j < 9 && j < c.len() implies #[trigger] c[j].passed by {
            if j == 0 {} else if j == 1 {} else if j == 2 {} else if j == 3 {} else if j == 4 {} else if j == 5 {} else if j == 6 {} else if j == 7 {}
        }
        crate::error::lemma_first_failure(c, 9);
    } else if !(ctx.token_metadata_program.key == token_metadata_program_key()) {
        assert forall|j: int| 0 <= j < 10 && j < c.len() implies #[trigger] c[j].passed by {
            if j == 0 {} else if j == 1 {} else if j == 2 {} else if j == 3 {} else if j == 4 {} else if j == 5 {} else if j == 6 {} else if j == 7 {} else if j == 8 {}
        }
        crate::error::lemma_first_failure(c, 10);
    } else {
        assert forall|j: int| 0 <= j < c.len() implies #[trigger] c[j].passed by {
            if j == 0 {} else if j == 1 {} else if j == 2 {} else if j == 3 {} else if j == 4 {} else if j == 5 {} else if j == 6 {} else if j == 7 {} else if j == 8 {} else if j == 9 {}
        }
    }
}

/// The error with which `mint_reward` refuses its accounts: signatures are
/// checked first, then the accounts it creates, then the other accounts in
/// field order.
#[verifier::spinoff_prover]
#[verifier::rlimit(40)]
pub proof fn lemma_mint_reward_error(ctx: MintReward)
    ensures
        outcome(ctx.checks()) == {
            if !(ctx.payer.is_signer) {
                Err(AccountsError::AccountNotSigner)
            } else if !(ctx.authority.is_signer) {
                Err(AccountsError::AccountNotSigner)
            } else if !(ctx.mint.is_signer) {
                Err(AccountsError::AccountNotSigner)
            } else if !(ctx.payer.is_writable) {
                Err(AccountsError::ConstraintMut)
            } else if !(ctx.game.data.auth@.contains(ctx.authority.key)) {
                Err(AccountsError::InvalidAuthority)
            } else if !(ctx.achievement.data.game == ctx.game.key) {
                Err(AccountsError::ConstraintHasOne)
            } else if !(ctx.achievement.data.reward == Some(ctx.reward.key)) {
                Err(AccountsError::ConstraintRaw)
            } else if !(ctx.reward.is_writable) {
                Err(AccountsError::ConstraintMut)
            } else if !(ctx.reward.data.achievement == ctx.achievement.key) {
                Err(AccountsError::ConstraintHasOne)
            } else if !(ctx.player.data.user == ctx.user.key) {
                Err(AccountsError::ConstraintHasOne)
            } else if !(ctx.player_achievement.data.player == ctx.player.key) {
                Err(AccountsError::ConstraintHasOne)
            } else if !(ctx.player_achievement.data.achievement == ctx.achievement.key) {
                Err(AccountsError::ConstraintHasOne)
            } else if !(ctx.mint.is_writable) {
                Err(AccountsError::ConstraintMut)
            } else if !(ctx.metadata.is_writable) {
                Err(AccountsError::ConstraintMut)
            } else if !(ctx.master_edition.is_writable) {
                Err(AccountsError::ConstraintMut)
            } else if !(ctx.mint_nft_to.is_writable) {
                Err(AccountsError::ConstraintMut)
            } else if !(ctx.token_metadata_program.key == token_metadata_program_key()) {
                Err(AccountsError::ConstraintAddress)
            } else {
                Ok::<(), AccountsError>(())
            }
        },
{
    let c = ctx.checks();
    crate::error::lemma_outcome(c);
    if !(ctx.payer.is_signer) {
        crate::error::lemma_first_failure(c, 0);
    } else if !(ctx.authority.is_signer) {
        assert forall|j: int| 0 <= j < 1 && j < c.len() implies #[trigger] c[j].passed by {
        }
        crate::error::lemma_first_failure(c, 1);
    } else if !(ctx.mint.is_signer) {
        assert forall|j: int| 0 <= j < 2 && j < c.len() implies #[trigger] c[j].passed by {
            if j == 0 {}
        }
        crate::error::lemma_first_failure(c, 2);
    } else if !(ctx.payer.is_writable) {
        assert forall|j: int| 0 <= j < 3 && j < c.len() implies #[trigger] c[j].passed by {
            if j == 0 {} else if j == 1 {}
        }
        crate::error::lemma_first_failure(c, 3);
    } else if !(ctx.game.data.auth@.contains(ctx.authority.key)) {
        assert forall|j: int| 0 <= j < 4 && j < c.len() implies #[trigger] c[j].passed by {
            if j == 0 {} else if j == 1 {} else if j == 2 {}
        }
        crate::error::lemma_first_failure(c, 4);
    } else if !(ctx.achievement.data.game == ctx.game.key) {
        assert forall|j: int| 0 <= j < 5 && j < c.len() implies #[trigger] c[j].passed by {
            if j == 0 {} else if j == 1 {} else if j == 2 {} else if j == 3 {}
        }
        crate::error::lemma_first_failure(c, 5);
    } else if !(ctx.achievement.data.reward == Some(ctx.reward.key)) {
        assert forall|j: int| 0 <= j < 6 && j < c.len() implies #[trigger] c[j].passed by {
            if j == 0 {} else if j == 1 {} else if j == 2 {} else if j == 3 {} else if j == 4 {}
        }
        crate::error::lemma_first_failure(c, 6);
    } else if !(ctx.reward.is_writable) {
        assert forall|j: int| 0 <= j < 7 && j < c.len() implies #[trigger] c[j].passed by {
            if j == 0 {} else if j == 1 {} else if j == 2 {} else if j == 3 {} else if j == 4 {} else if j == 5 {}
        }
        crate::error::lemma_first_failure(c, 7);
    } else if !(ctx.reward.data.achievement == ctx.achievement.key) {
        assert forall|j: int| 0 <= j < 8 && j < c.len() implies #[trigger] c[j].passed by {
            if j == 0 {} else if j == 1 {} else if j == 2 {} else if j == 3 {} else if j == 4 {} else if j == 5 {} else if j == 6 {}
        }
        crate::error::lemma_first_failure(c, 8);
    } else if !(ctx.player.data.user == ctx.user.key) {
        assert forall|j: int| 0 <= j < 9 && j < c.len() implies #[trigger] c[j].passed by {
            if j == 0 {} else if j == 1 {} else if j == 2 {} else if j == 3 {} else if j == 4 {} else if j == 5 {} else if j == 6 {} else if j == 7 {}
        }
        crate::error::lemma_first_failure(c, 9);
    } else if !(ctx.player_achievement.data.player == ctx.player.key) {
        assert forall|j: int| 0 <= j < 10 && j < c.len() implies #[trigger] c[j].passed by {
            if j == 0 {} else if j == 1 {} else if j == 2 {} else if j == 3 {} else if j == 4 {} else if j == 5 {} else if j == 6 {} else if j == 7 {} else if j == 8 {}
        }
        crate::error::lemma_first_failure(c, 10);
    } else if !(ctx.player_achievement.data.achievement == ctx.achievement.key) {
        assert forall|j: int| 0 <= j < 11 && j < c.len() implies #[trigger] c[j].passed by {
            if j == 0 {} else if j == 1 {} else if j == 2 {} else if j == 3 {} else if j == 4 {} else if j == 5 {} else if j == 6 {} else if j == 7 {} else if j == 8 {} else if j == 9 {}
        }
        crate::error::lemma_first_failure(c, 11);
    } else if !(ctx.mint.is_writable) {
        assert forall|j: int| 0 <= j < 12 && j < c.len() implies #[trigger] c[j].passed by {
            if j == 0 {} else if j == 1 {} else if j == 2 {} else if j == 3 {} else if j == 4 {} else if j == 5 {} else if j == 6 {} else if j == 7 {} else if j == 8 {} else if j == 9 {} else if j == 10 {}
        }
        crate::error::lemma_first_failure(c, 12);
    } else if !(ctx.metadata.is_writable) {
        assert forall|j: int| 0 <= j < 13 && j < c.len() implies #[trigger] c[j].passed by {
            if j == 0 {} else if j == 1 {} else if j == 2 {} else if j == 3 {} else if j == 4 {} else if j == 5 {} else if j == 6 {} else if j == 7 {} else if j == 8 {} else if j == 9 {} else if j == 10 {} else if j == 11 {}
        }
        crate::error::lemma_first_failure(c, 13);
    } else if !(ctx.master_edition.is_writable) {
        assert forall|j: int| 0 <= j < 14 && j < c.len() implies #[trigger] c[j].passed by {
            if j == 0 {} else if j == 1 {} else if j == 2 {} else if j == 3 {} else if j == 4 {} else if j == 5 {} else if j == 6 {} else if j == 7 {} else if j == 8 {} else if j == 9 {} else if j == 10 {} else if j == 11 {} else if j == 12 {}
        }
        crate::error::lemma_first_failure(c, 14);
    } else if !(ctx.mint_nft_to.is_writable) {
        assert forall|j: int| 0 <= j < 15 && j < c.len() implies #[trigger] c[j].passed by {
            if j == 0 {} else if j == 1 {} else if j == 2 {} else if j == 3 {} else if j == 4 {} else if j == 5 {} else if j == 6 {} else if j == 7 {} else if j == 8 {} else if j == 9 {} else if j == 10 {} else if j == 11 {} else if j == 12 {} else if j == 13 {}
        }
        crate::error::lemma_first_failure(c, 15);
    } else if !(ctx.token_metadata_program.key == token_metadata_program_key()) {
        assert forall|j: int| 0 <= j < 16 && j < c.len() implies #[trigger] c[j].passed by {
            if j == 0 {} else if j == 1 {} else if j == 2 {} else if j == 3 {} else if j == 4 {} else if j == 5 {} else if j == 6 {} else if j == 7 {} else if j == 8 {} else if j == 9 {} else if j == 10 {} else if j == 11 {} else if j == 12 {} else if j == 13 {} else if j == 14 {}
        }
        crate::error::lemma_first_failure(c, 16);
    } else {
        assert forall|j: int| 0 <= j < c.len() implies #[trigger] c[j].passed by {
            if j == 0 {} else if j == 1 {} else if j == 2 {} else if j == 3 {} else if j == 4 {} else if j == 5 {} else if j == 6 {} else if j == 7 {} else if j == 8 {} else if j == 9 {} else if j == 10 {} else if j == 11 {} else if j == 12 {} else if j == 13 {} else if j == 14 {} else if j == 15 {}
        }
    }
}

/// The error with which `verify_reward` refuses its accounts: signatures are
/// checked first, then the accounts it creates, then the other accounts in
/// field order.
#[verifier::spinoff_prover]
#[verifier::rlimit(40)]
pub proof fn lemma_verify_reward_error(ctx: VerifyReward, reward_address: Pubkey)
    ensures
        outcome(ctx.checks(reward_address)) == {
            if !(ctx.payer.is_signer) {
                Err(AccountsError::AccountNotSigner)
            } else if !(ctx.authority.is_signer) {
                Err(AccountsError::AccountNotSigner)
            } else if !(ctx.payer.is_writable) {
                Err(AccountsError::ConstraintMut)
            } else if !(ctx.game.data.auth@.contains(ctx.authority.key)) {
                Err(AccountsError::InvalidAuthority)
            } else if !(ctx.achievement.data.game == ctx.game.key) {
                Err(AccountsError::ConstraintHasOne)
            } else if !(ctx.achievement.data.reward == Some(ctx.reward.key)) {
                Err(AccountsError::ConstraintRaw)
            } else if !(ctx.reward.key == reward_address) {
                Err(AccountsError::ConstraintSeeds)
            } else if !(ctx.reward.data.achievement == ctx.achievement.key) {
                Err(AccountsError::ConstraintHasOne)
            } else if !(ctx.reward.data.collection_mint == Some(ctx.collection_mint.key)) {
                Err(AccountsError::ConstraintRaw)
            } else if !(ctx.player.data.user == ctx.user.key) {
                Err(AccountsError::ConstraintHasOne)
            } else if !(ctx.player_achievement.data.player == ctx.player.key) {
                Err(AccountsError::ConstraintHasOne)
            } else if !(ctx.player_achievement.data.achievement == ctx.achievement.key) {
                Err(AccountsError::ConstraintHasOne)
            } else if !(ctx.player_achievement.data.metadata == Some(ctx.metadata_to_verify.key)) {
                Err(AccountsError::ConstraintRaw)
            } else if !(ctx.collection_metadata.is_writable) {
                Err(AccountsError::ConstraintMut)
            } else {
                Ok::<(), AccountsError>(())
            }
        },
{
    let c = ctx.checks(reward_address);
    crate::error::lemma_outcome(c);
    if !(ctx.payer.is_signer) {
        crate::error::lemma_first_failure(c, 0);
    } else if !(ctx.authority.is_signer) {
        assert forall|j: int| 0 <= j < 1 && j < c.len() implies #[trigger] c[j].passed by {
        }
        crate::error::lemma_first_failure(c, 1);
    } else if !(ctx.payer.is_writable) {
        assert forall|j: int| 0 <= j < 2 && j < c.len() implies #[trigger] c[j].passed by {
            if j == 0 {}
        }
        crate::error::lemma_first_failure(c, 2);
    } else if !(ctx.game.data.auth@.contains(ctx.authority.key)) {
        assert forall|j: int| 0 <= j < 3 && j < c.len() implies #[trigger] c[j].passed by {
            if j == 0 {} else if j == 1 {}
        }
        crate::error::lemma_first_failure(c, 3);
    } else if !(ctx.achievement.data.game == ctx.game.key) {
        assert forall|j: int| 0 <= j < 4 && j < c.len() implies #[trigger] c[j].passed by {
            if j == 0 {} else if j == 1 {} else if j == 2 {}
        }
        crate::error::lemma_first_failure(c, 4);
    } else if !(ctx.achievement.data.reward == Some(ctx.reward.key)) {
        assert forall|j: int| 0 <= j < 5 && j < c.len() implies #[trigger] c[j].passed by {
            if j == 0 {} else if j == 1 {} else if j == 2 {} else if j == 3 {}
        }
        crate::error::lemma_first_failure(c, 5);
    } else if !(ctx.reward.key == reward_address) {
        assert forall|j: int| 0 <= j < 6 && j < c.len() implies #[trigger] c[j].passed by {
            if j == 0 {} else if j == 1 {} else if j == 2 {} else if j == 3 {} else if j == 4 {}
        }
        crate::error::lemma_first_failure(c, 6);
    } else if !(ctx.reward.data.achievement == ctx.achievement.key) {
        assert forall|j: int| 0 <= j < 7 && j < c.len() implies #[trigger] c[j].passed by {
            if j == 0 {} else if j == 1 {} else if j == 2 {} else if j == 3 {} else if j == 4 {} else if j == 5 {}
        }
        crate::error::lemma_first_failure(c, 7);
    } else if !(ctx.reward.data.collection_mint == Some(ctx.collection_mint.key)) {
        assert forall|j: int| 0 <= j < 8 && j < c.len() implies #[trigger] c[j].passed by {
            if j == 0 {} else if j == 1 {} else if j == 2 {} else if j == 3 {} else if j == 4 {} else if j == 5 {} else if j == 6 {}
        }
        crate::error::lemma_first_failure(c, 8);
    } else if !(ctx.player.data.user == ctx.user.key) {
        assert forall|j: int| 0 <= j < 9 && j < c.len() implies #[trigger] c[j].passed by {
            if j == 0 {} else if j == 1 {} else if j == 2 {} else if j == 3 {} else if j == 4 {} else if j == 5 {} else if j == 6 {} else if j == 7 {}
        }
        crate::error::lemma_first_failure(c, 9);
    } else if !(ctx.player_achievement.data.player == ctx.player.key) {
        assert forall|j: int| 0 <= j < 10 && j < c.len() implies #[trigger] c[j].passed by {
            if j == 0 {} else if j == 1 {} else if j == 2 {} else if j == 3 {} else if j == 4 {} else if j == 5 {} else if j == 6 {} else if j == 7 {} else if j == 8 {}
        }
        crate::error::lemma_first_failure(c, 10);
    } else if !(ctx.player_achievement.data.achievement == ctx.achievement.key) {
        assert forall|j: int| 0 <= j < 11 && j < c.len() implies #[trigger] c[j].passed by {
            if j == 0 {} else if j == 1 {} else if j == 2 {} else if j == 3 {} else if j == 4 {} else if j == 5 {} else if j == 6 {} else if j == 7 {} else if j == 8 {} else if j == 9 {}
        }
        crate::error::lemma_first_failure(c, 11);
    } else if !(ctx.player_achievement.data.metadata == Some(ctx.metadata_to_verify.key)) {
        assert forall|j: int| 0 <= j < 12 && j < c.len() implies #[trigger] c[j].passed by {
            if j == 0 {} else if j == 1 {} else if j == 2 {} else if j == 3 {} else if j == 4 {} else if j == 5 {} else if j == 6 {} else if j == 7 {} else if j == 8 {} else if j == 9 {} else if j == 10 {}
        }
        crate::error::lemma_first_failure(c, 12);
    } else if !(ctx.collection_metadata.is_writable) {
        assert forall|j: int| 0 <= j < 13 && j < c.len() implies #[trigger] c[j].passed by {
            if j == 0 {} else if j == 1 {} else if j == 2 {} else if j == 3 {} else if j == 4 {} else if j == 5 {} else if j == 6 {} else if j == 7 {} else if j == 8 {} else if j == 9 {} else if j == 10 {} else if j == 11 {}
        }
        crate::error::lemma_first_failure(c, 13);
    } else {
        assert forall|j: int| 0 <= j < c.len() implies #[trigger] c[j].passed by {
            if j == 0 {} else if j == 1 {} else if j == 2 {} else if j == 3 {} else if j == 4 {} else if j == 5 {} else if j == 6 {} else if j == 7 {} else if j == 8 {} else if j == 9 {} else if j == 10 {} else if j == 11 {} else if j == 12 {}
        }
    }
}

} // verus!
