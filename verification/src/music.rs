//! The music tracks the scene controller can request.  Playback itself is an
//! outside collaborator: the controller only emits these requests, in the
//! order they should reach the audio backend.

use vstd::prelude::*;

verus! {

/// A named track of the round's soundtrack.
#[derive(Clone, Copy, Debug, PartialEq, Eq, Structural)]
pub enum Music {
    NormalMusic,
    BossMusic,
    VictoryMusic,
    GameOverMusic,
}

} // verus!
