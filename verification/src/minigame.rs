//! What a minigame hands back to the arena after one step.

use vstd::prelude::*;

verus! {

/// The one-shot sounds a minigame step can ask for.
#[derive(Debug, Clone, Copy, PartialEq, Eq, Structural)]
pub enum GameSound {
    Turn,
    Beam,
    Portal,
    Victory,
    Crash,
    Zap,
}

/// The outcome of one minigame step: the sounds to play in order, whether the
/// level was cleared, whether the run is over, and what ended it.
#[derive(Debug, Clone, PartialEq, Eq)]
pub struct GameTick {
    pub sounds: Vec<GameSound>,
    pub cleared: bool,
    pub lost: bool,
    pub label: Option<String>,
}

impl GameTick {
    /// A step that asks for nothing.
    pub fn new() -> (tick: GameTick)
        ensures
            tick.sounds@ == Seq::<GameSound>::empty(),
            !tick.cleared,
            !tick.lost,
            tick.label is None,
    {
        GameTick { sounds: Vec::new(), cleared: false, lost: false, label: None }
    }

    /// Queues one sound after the ones already asked for.
    pub fn sound(&mut self, sound: GameSound)
        ensures
            final(self).sounds@ == old(self).sounds@.push(sound),
            final(self).cleared == old(self).cleared,
            final(self).lost == old(self).lost,
            final(self).label == old(self).label,
    {
        self.sounds.push(sound);
    }
}

} // verus!
