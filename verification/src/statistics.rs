//! What is counted of a player. The records hold the player as the caller has it.

use vstd::prelude::*;

verus! {

/// The blocks that a player has broken.
#[derive(Debug, Clone)]
pub struct PlayerBreakCount<P> {
    pub player: P,
    pub break_count: u64,
}

/// The blocks that a player has built.
#[derive(Debug, Clone)]
pub struct PlayerBuildCount<P> {
    pub player: P,
    pub build_count: u64,
}

/// The ticks that a player has played.
#[derive(Debug, Clone)]
pub struct PlayerPlayTicks<P> {
    pub player: P,
    pub play_ticks: u64,
}

/// The votes that a player has cast.
#[derive(Debug, Clone)]
pub struct PlayerVoteCount<P> {
    pub player: P,
    pub vote_count: u64,
}

} // verus!
