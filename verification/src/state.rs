//! The account data that the program's checks read, and a loaded account:
//! its address together with its data.
use vstd::prelude::*;

use crate::pubkey::Pubkey;

verus! {

/// An account handed to an instruction whose data is not read: its address,
/// and whether the transaction signed for it and lets it be written.
#[derive(Clone, Copy, Debug)]
pub struct AccountInfo {
    pub key: Pubkey,
    pub is_signer: bool,
    pub is_writable: bool,
}

/// An account handed to an instruction with its decoded data: its address,
/// whether the transaction lets it be written, and its data.
pub struct Account<T> {
    pub key: Pubkey,
    pub is_writable: bool,
    pub data: T,
}

/// An account that an instruction creates: its address, and whether it is
/// already in use (holds data, or belongs to a program other than the
/// system program), in which case the system program refuses to create it.
#[derive(Clone, Copy, Debug)]
pub struct NewAccount {
    pub key: Pubkey,
    pub in_use: bool,
}

/// A game: who may administer it, and how many achievements and
/// leaderboards were added to it so far.
pub struct Game {
    /// The authority list: the keys allowed to sign administrative
    /// instructions for this game.
    pub auth: Vec<Pubkey>,
    pub achievement_count: u64,
    pub leaderboard_count: u64,
}

impl Game {
    /// Whether `signer` is on the game's authority list.
    pub fn check_signer_is_authority(&self, signer: &Pubkey) -> (res: bool)
        ensures
            res == self.auth@.contains(*signer),
    {
        let mut i: usize = 0;
        while i < self.auth.len()
            invariant
                0 <= i <= self.auth@.len(),
                forall|j: int| 0 <= j < i ==> self.auth@[j] != *signer,
            decreases self.auth@.len() - i,
        {
            if self.auth[i] == *signer {
                return true;
            }
            i = i + 1;
        }
        false
    }
}

/// An achievement of a game, with the reward attached to it, if any.
#[derive(Clone, Copy, Debug)]
pub struct Achievement {
    pub game: Pubkey,
    pub reward: Option<Pubkey>,
}

/// A leaderboard of a game, with the account that keeps its top entries,
/// if it keeps any.
#[derive(Clone, Copy, Debug)]
pub struct LeaderBoard {
    pub game: Pubkey,
    pub top_entries: Option<Pubkey>,
}

/// A player account, owned by `user`.
#[derive(Clone, Copy, Debug)]
pub struct Player {
    pub user: Pubkey,
}

/// The list of scores that one player submitted to one leaderboard.
#[derive(Clone, Copy, Debug)]
pub struct PlayerEntryList {
    pub player_info: Pubkey,
    pub leaderboard: Pubkey,
}

/// Proof that a player unlocked an achievement, with the metadata of the
/// reward minted for it, if one was.
#[derive(Clone, Copy, Debug)]
pub struct PlayerAchievement {
    pub player: Pubkey,
    pub achievement: Pubkey,
    pub metadata: Option<Pubkey>,
}

/// An NFT reward attached to an achievement, with the collection that its
/// NFTs belong to, if any.
#[derive(Clone, Copy, Debug)]
pub struct Reward {
    pub achievement: Pubkey,
    pub collection_mint: Option<Pubkey>,
}

} // verus!
