//! Decisions a ride makes about its surroundings: which directories are
//! quarantined, what a crash is blamed on, what each step outcome does to the
//! run's labels and phase, and the stand-in source the warp menu opens.

use crate::minigame::{GameSound, GameTick};
use vstd::prelude::*;

verus! {

/// The path's components, as `std::path::Path::components` splits it, each
/// read as text.
pub uninterp spec fn path_components_of(path: Seq<char>) -> Seq<Seq<char>>;

/// Splits `path` with `std::path::Path::components` and reads each component
/// as text (lossily, as `to_string_lossy` does). Trusted: the result is named
/// [`path_components_of`]; nothing else is claimed about it.
#[verifier::external_body]
fn path_components(path: &str) -> (components: Vec<String>)
    ensures
        components@.len() == path_components_of(path@).len(),
        forall|i: int| 0 <= i < components@.len() ==> #[trigger] components@[i]@ == path_components_of(path@)[i],
{
    std::path::Path::new(path).components().map(|c| c.as_os_str().to_string_lossy().into_owned()).collect()
}

/// A character with ASCII capitals folded to lower case.
pub open spec fn ascii_lower(c: char) -> char {
    if 'A' <= c <= 'Z' {
        ((c as u32) + 32) as char
    } else {
        c
    }
}

/// True when `text`, ASCII capitals folded to lower case, equals `name`.
pub open spec fn lower_equals(text: Seq<char>, name: Seq<char>) -> bool {
    text.len() == name.len() && forall|i: int| 0 <= i < text.len() ==> ascii_lower(#[trigger] text[i]) == name[i]
}

/// True when a path component, folded to lower case, names one of the
/// well-known heavy or hidden build directories.
pub open spec fn names_quarantined_dir(component: Seq<char>) -> bool {
    lower_equals(component, "node_modules"@) || lower_equals(component, "target"@) || lower_equals(component, ".git"@)
}

/// True when `text`, folded to lower case, equals `name`.
fn lower_matches(text: &str, name: &str) -> (matches: bool)
    ensures
        matches == lower_equals(text@, name@),
{
    let len = text.unicode_len();
    if len != name.unicode_len() {
        return false;
    }
    let mut i: usize = 0;
    while i < len
        invariant
            i <= len,
            len == text@.len(),
            len == name@.len(),
            forall|j: int| 0 <= j < i ==> ascii_lower(#[trigger] text@[j]) == name@[j],
        decreases len - i,
    {
        let c = text.get_char(i);
        let n = name.get_char(i);
        let lowered_match = if c >= 'A' && c <= 'Z' {
            (c as u32) + 32 == n as u32
        } else {
            c == n
        };
        if !lowered_match {
            return false;
        }
        i += 1;
    }
    true
}

/// True when some component of `path`, folded to lower case, names a
/// well-known heavy or hidden build directory worth a quarantine.
pub open spec fn spec_is_quarantined(path: Seq<char>) -> bool {
    exists|i: int| 0 <= i < path_components_of(path).len() && names_quarantined_dir(#[trigger] path_components_of(path)[i])
}

/// True when any component of the path names a well-known heavy or hidden
/// build directory worth a quarantine.
pub fn is_quarantined(path: &str) -> (quarantined: bool)
    ensures
        quarantined == spec_is_quarantined(path@),
{
    let components = path_components(path);
    let mut i: usize = 0;
    while i < components.len()
        invariant
            i <= components@.len(),
            components@.len() == path_components_of(path@).len(),
            forall|j: int| 0 <= j < components@.len() ==> #[trigger] components@[j]@ == path_components_of(path@)[j],
            forall|j: int| 0 <= j < i ==> !names_quarantined_dir(#[trigger] path_components_of(path@)[j]),
        decreases components@.len() - i,
    {
        let name = components[i].as_str();
        if lower_matches(name, "node_modules") || lower_matches(name, "target") || lower_matches(name, ".git") {
            assert(components@[i as int]@ == path_components_of(path@)[i as int]);
            return true;
        }
        i += 1;
    }
    false
}

/// What a crash on the grid is blamed on.
#[derive(Debug, Clone, Copy, PartialEq, Eq, Structural)]
pub enum CrashReason {
    File,
    Trail,
    Opponent,
    Disc,
    Hazard,
    Wall,
}

/// Where a wall crash happened: a snake ring's still-locked exit, a street
/// wall (in a document, a source ring or a directory), or the arena's edge.
#[derive(Debug, Clone, Copy, PartialEq, Eq, Structural)]
pub struct WallContext {
    pub locked_exit: bool,
    pub street_wall: bool,
    pub document: bool,
    pub source: bool,
}

/// The label a crash shows. A file crash names the file when the crash cell
/// holds one.
pub open spec fn spec_crash_label(reason: CrashReason, file_name: Option<Seq<char>>, wall: WallContext) -> Seq<char> {
    match reason {
        CrashReason::File => match file_name {
            Some(name) => "file "@ + name,
            None => "file"@,
        },
        CrashReason::Trail => "your trail"@,
        CrashReason::Opponent => "the recognizer"@,
        CrashReason::Disc => "a disc"@,
        CrashReason::Hazard => "a hazard tile"@,
        CrashReason::Wall => if wall.locked_exit {
            "the locked exit"@
        } else if wall.street_wall {
            if wall.document {
                "paragraph"@
            } else if wall.source {
                "ring wall"@
            } else {
                "street barrier"@
            }
        } else {
            "a dead bus line"@
        },
    }
}

/// The label a crash shows.
pub fn crash_label(reason: CrashReason, file_name: Option<&str>, wall: WallContext) -> (label: String)
    ensures
        label@ == spec_crash_label(reason, match file_name { Some(n) => Some(n@), None => None }, wall),
{
    match reason {
        CrashReason::File => match file_name {
            Some(name) => {
                let mut label = String::from_str("file ");
                label.append(name);
                label
            },
            None => String::from_str("file"),
        },
        CrashReason::Trail => String::from_str("your trail"),
        CrashReason::Opponent => String::from_str("the recognizer"),
        CrashReason::Disc => String::from_str("a disc"),
        CrashReason::Hazard => String::from_str("a hazard tile"),
        CrashReason::Wall => if wall.locked_exit {
            String::from_str("the locked exit")
        } else if wall.street_wall {
            if wall.document {
                String::from_str("paragraph")
            } else if wall.source {
                String::from_str("ring wall")
            } else {
                String::from_str("street barrier")
            }
        } else {
            String::from_str("a dead bus line")
        },
    }
}

/// What one grid step came to.
#[derive(Debug, Clone, Copy, PartialEq, Eq, Structural)]
pub enum StepOutcome {
    Moved,
    Crashed(CrashReason),
    EnteringDir(usize),
    EnteringDocument(usize),
    EnteringSource(usize),
    GoToParent,
    CloseDocument,
}

/// The one-shot effects the music plays.
#[derive(Debug, Clone, Copy, PartialEq, Eq, Structural)]
pub enum MusicSfx {
    Crash,
    Turn,
    Beam,
    Portal,
    Victory,
    GameOver,
    Seek,
    Zap,
}

/// A change to one of the run's labels.
#[derive(Debug, Clone, PartialEq, Eq)]
pub enum LabelUpdate {
    Keep,
    Clear,
    To(String),
}

/// A change to the run's phase.
#[derive(Debug, Clone, Copy, PartialEq, Eq, Structural)]
pub enum PhaseUpdate {
    Keep,
    Running,
    Crashed,
}

/// Where the ride goes next, for the caller to request.
#[derive(Debug, Clone, Copy, PartialEq, Eq, Structural)]
pub enum RideRequest {
    Stay,
    /// Transport into the directory entry at this index.
    Directory(usize),
    /// Open the document entry at this index.
    Document(usize),
    /// Open the source entry at this index.
    Source(usize),
    /// Ride up to the parent directory.
    Parent,
    /// Leave the document and rebuild the directory around it.
    RestoreDirectory,
}

/// What a step outcome does to the run.
#[derive(Debug, Clone, PartialEq, Eq)]
pub struct OutcomeEffect {
    pub crash_label: LabelUpdate,
    pub entering_label: LabelUpdate,
    pub phase: PhaseUpdate,
    pub sound: Option<MusicSfx>,
    pub request: RideRequest,
}

/// The view of a label change, for contracts.
pub open spec fn label_view(update: LabelUpdate) -> Option<Option<Seq<char>>> {
    match update {
        LabelUpdate::Keep => None,
        LabelUpdate::Clear => Some(None),
        LabelUpdate::To(text) => Some(Some(text@)),
    }
}

/// True when `effect` sets the crash label to `crash`, clears the entering
/// label and changes nothing else.
pub open spec fn crash_only(effect: OutcomeEffect, crash: Seq<char>) -> bool {
    label_view(effect.crash_label) == Some(Some(crash)) && label_view(effect.entering_label) == Some(None::<Seq<char>>)
        && effect.phase == PhaseUpdate::Keep && effect.sound is None && effect.request == RideRequest::Stay
}

/// True when `effect` enters somewhere: the entering label reads `entering`,
/// the crash label is cleared, the beam or portal sound plays, and `request`
/// is made.
pub open spec fn entering(effect: OutcomeEffect, entering: Seq<char>, sound: MusicSfx, request: RideRequest) -> bool {
    label_view(effect.entering_label) == Some(Some(entering)) && label_view(effect.crash_label) == Some(None::<Seq<char>>)
        && effect.phase == PhaseUpdate::Keep && effect.sound == Some(sound) && effect.request == request
}

/// True when `effect` only sets the crash label to `crash` and the phase to `phase`.
pub open spec fn refused(effect: OutcomeEffect, crash: Seq<char>, phase: PhaseUpdate) -> bool {
    label_view(effect.crash_label) == Some(Some(crash)) && label_view(effect.entering_label) == None::<Option<Seq<char>>>
        && effect.phase == phase && effect.sound is None && effect.request == RideRequest::Stay
}

fn effect(crash_label: LabelUpdate, entering_label: LabelUpdate, phase: PhaseUpdate, sound: Option<MusicSfx>, request: RideRequest) -> (e: OutcomeEffect)
    ensures
        e == (OutcomeEffect { crash_label, entering_label, phase, sound, request }),
{
    OutcomeEffect { crash_label, entering_label, phase, sound, request }
}

/// What a step outcome does to the run. `entry_name` is the name of the
/// directory entry the outcome points at (for a file crash, the entry on the
/// crash cell), when there is one; `parent` says whether there is a parent
/// directory to ride up to; `wall` places a wall crash.
///
/// A crash shows its label. Entering a directory labels the ride with the
/// entry's name after a DMA arrow and starts the transport, entering a
/// document or source labels it with the name and opens the entry, and the
/// parent gate labels it as a return to the parent; each has its sound.
/// An entry that is missing crashes the run (a directory) or keeps it running
/// with a warning (a document or source); a missing parent crashes it. Closing
/// a document rebuilds the directory.
pub fn resolve_outcome(outcome: StepOutcome, entry_name: Option<&str>, parent: bool, wall: WallContext) -> (e: OutcomeEffect)
    ensures
        match outcome {
            StepOutcome::Moved => e == (OutcomeEffect {
                crash_label: LabelUpdate::Keep,
                entering_label: LabelUpdate::Keep,
                phase: PhaseUpdate::Keep,
                sound: None,
                request: RideRequest::Stay,
            }),
            StepOutcome::Crashed(reason) => crash_only(
                e,
                spec_crash_label(reason, match entry_name { Some(n) => Some(n@), None => None }, wall),
            ),
            StepOutcome::EnteringDir(index) => match entry_name {
                Some(name) => entering(e, "DMA → "@ + name@, MusicSfx::Beam, RideRequest::Directory(index)),
                None => refused(e, "unmapped address"@, PhaseUpdate::Crashed),
            },
            StepOutcome::EnteringDocument(index) => match entry_name {
                Some(name) => entering(e, name@, MusicSfx::Beam, RideRequest::Document(index)),
                None => refused(e, "unreadable sector"@, PhaseUpdate::Running),
            },
            StepOutcome::EnteringSource(index) => match entry_name {
                Some(name) => entering(e, name@, MusicSfx::Beam, RideRequest::Source(index)),
                None => refused(e, "unmapped sector"@, PhaseUpdate::Running),
            },
            StepOutcome::GoToParent => if parent {
                entering(e, "RET → parent"@, MusicSfx::Portal, RideRequest::Parent)
            } else {
                refused(e, "a dead bus line"@, PhaseUpdate::Crashed)
            },
            StepOutcome::CloseDocument => e == (OutcomeEffect {
                crash_label: LabelUpdate::Keep,
                entering_label: LabelUpdate::Keep,
                phase: PhaseUpdate::Keep,
                sound: None,
                request: RideRequest::RestoreDirectory,
            }),
        },
{
    match outcome {
        StepOutcome::Moved => effect(LabelUpdate::Keep, LabelUpdate::Keep, PhaseUpdate::Keep, None, RideRequest::Stay),
        StepOutcome::Crashed(reason) => effect(
            LabelUpdate::To(crash_label(reason, entry_name, wall)),
            LabelUpdate::Clear,
            PhaseUpdate::Keep,
            None,
            RideRequest::Stay,
        ),
        StepOutcome::EnteringDir(index) => match entry_name {
            Some(name) => {
                let mut label = String::from_str("DMA → ");
                label.append(name);
                effect(LabelUpdate::Clear, LabelUpdate::To(label), PhaseUpdate::Keep, Some(MusicSfx::Beam), RideRequest::Directory(index))
            },
            None => effect(
                LabelUpdate::To(String::from_str("unmapped address")),
                LabelUpdate::Keep,
                PhaseUpdate::Crashed,
                None,
                RideRequest::Stay,
            ),
        },
        StepOutcome::EnteringDocument(index) => match entry_name {
            Some(name) => effect(
                LabelUpdate::Clear,
                LabelUpdate::To(String::from_str(name)),
                PhaseUpdate::Keep,
                Some(MusicSfx::Beam),
                RideRequest::Document(index),
            ),
            None => effect(
                LabelUpdate::To(String::from_str("unreadable sector")),
                LabelUpdate::Keep,
                PhaseUpdate::Running,
                None,
                RideRequest::Stay,
            ),
        },
        StepOutcome::EnteringSource(index) => match entry_name {
            Some(name) => effect(
                LabelUpdate::Clear,
                LabelUpdate::To(String::from_str(name)),
                PhaseUpdate::Keep,
                Some(MusicSfx::Beam),
                RideRequest::Source(index),
            ),
            None => effect(
                LabelUpdate::To(String::from_str("unmapped sector")),
                LabelUpdate::Keep,
                PhaseUpdate::Running,
                None,
                RideRequest::Stay,
            ),
        },
        StepOutcome::GoToParent => if parent {
            effect(
                LabelUpdate::Clear,
                LabelUpdate::To(String::from_str("RET → parent")),
                PhaseUpdate::Keep,
                Some(MusicSfx::Portal),
                RideRequest::Parent,
            )
        } else {
            effect(
                LabelUpdate::To(String::from_str("a dead bus line")),
                LabelUpdate::Keep,
                PhaseUpdate::Crashed,
                None,
                RideRequest::Stay,
            )
        },
        StepOutcome::CloseDocument => effect(LabelUpdate::Keep, LabelUpdate::Keep, PhaseUpdate::Keep, None, RideRequest::RestoreDirectory),
    }
}

/// The music effect a minigame sound plays as.
pub open spec fn spec_game_sfx(sound: GameSound) -> MusicSfx {
    match sound {
        GameSound::Turn => MusicSfx::Turn,
        GameSound::Beam => MusicSfx::Beam,
        GameSound::Portal => MusicSfx::Portal,
        GameSound::Victory => MusicSfx::Victory,
        GameSound::Crash => MusicSfx::Crash,
        GameSound::Zap => MusicSfx::Zap,
    }
}

/// The music effect a minigame sound plays as.
pub fn game_sfx(sound: GameSound) -> (sfx: MusicSfx)
    ensures
        sfx == spec_game_sfx(sound),
{
    match sound {
        GameSound::Turn => MusicSfx::Turn,
        GameSound::Beam => MusicSfx::Beam,
        GameSound::Portal => MusicSfx::Portal,
        GameSound::Victory => MusicSfx::Victory,
        GameSound::Crash => MusicSfx::Crash,
        GameSound::Zap => MusicSfx::Zap,
    }
}

/// Ends a source run through the shared crash path, so a minigame's loss reads
/// like a grid crash: while the run is still running, the game-over sound
/// plays, the run crashes and shows `label`, and the entering label goes; a
/// run already over is left alone.
pub fn crash_source(running: bool, label: &str) -> (e: OutcomeEffect)
    ensures
        running ==> label_view(e.crash_label) == Some(Some(label@)) && label_view(e.entering_label)
            == Some(None::<Seq<char>>) && e.phase == PhaseUpdate::Crashed && e.sound == Some(MusicSfx::GameOver)
            && e.request == RideRequest::Stay,
        !running ==> e == (OutcomeEffect {
            crash_label: LabelUpdate::Keep,
            entering_label: LabelUpdate::Keep,
            phase: PhaseUpdate::Keep,
            sound: None,
            request: RideRequest::Stay,
        }),
{
    if !running {
        return effect(LabelUpdate::Keep, LabelUpdate::Keep, PhaseUpdate::Keep, None, RideRequest::Stay);
    }
    effect(
        LabelUpdate::To(String::from_str(label)),
        LabelUpdate::Clear,
        PhaseUpdate::Crashed,
        Some(MusicSfx::GameOver),
        RideRequest::Stay,
    )
}

/// A minigame step folded back into the shared run: the effects to play in
/// order, what the step does to the run, and whether the level was cleared.
#[derive(Debug, Clone, PartialEq, Eq)]
pub struct UniformStep {
    pub sounds: Vec<MusicSfx>,
    pub effect: OutcomeEffect,
    pub cleared: bool,
}

/// The label a lost minigame crashes with: its own, or a generic one.
pub open spec fn loss_label(label: Option<String>) -> Seq<char> {
    match label {
        Some(text) => text@,
        None => "the crash"@,
    }
}

/// Folds a minigame's step into the run: each of its sounds plays as its music
/// effect, in order; a loss ends the run through [`crash_source`] with the
/// game's label (or "the crash"); and the clear is handed back.
pub fn step_uniform(tick: GameTick, running: bool) -> (step: UniformStep)
    ensures
        step.sounds@ == tick.sounds@.map_values(|s: GameSound| spec_game_sfx(s)),
        step.cleared == tick.cleared,
        tick.lost && running ==> label_view(step.effect.crash_label) == Some(Some(loss_label(tick.label)))
            && label_view(step.effect.entering_label) == Some(None::<Seq<char>>)
            && step.effect.phase == PhaseUpdate::Crashed && step.effect.sound == Some(MusicSfx::GameOver)
            && step.effect.request == RideRequest::Stay,
        !(tick.lost && running) ==> step.effect == (OutcomeEffect {
            crash_label: LabelUpdate::Keep,
            entering_label: LabelUpdate::Keep,
            phase: PhaseUpdate::Keep,
            sound: None,
            request: RideRequest::Stay,
        }),
{
    let mut sounds: Vec<MusicSfx> = Vec::new();
    let n = tick.sounds.len();
    let mut i: usize = 0;
    while i < n
        invariant
            n == tick.sounds.len(),
            i <= n,
            sounds@ == tick.sounds@.subrange(0, i as int).map_values(|s: GameSound| spec_game_sfx(s)),
        decreases n - i,
    {
        sounds.push(game_sfx(tick.sounds[i]));
        i = i + 1;
        assert(sounds@ =~= tick.sounds@.subrange(0, i as int).map_values(|s: GameSound| spec_game_sfx(s)));
    }
    assert(tick.sounds@.subrange(0, n as int) =~= tick.sounds@);
    let effect = if tick.lost {
        match &tick.label {
            Some(label) => crash_source(running, label.as_str()),
            None => crash_source(running, "the crash"),
        }
    } else {
        effect(LabelUpdate::Keep, LabelUpdate::Keep, PhaseUpdate::Keep, None, RideRequest::Stay)
    };
    UniformStep { sounds, effect, cleared: tick.cleared }
}

/// `n` plays of one effect.
pub open spec fn repeated(sfx: MusicSfx, n: nat) -> Seq<MusicSfx> {
    Seq::new(n, |_i: int| sfx)
}

/// One play of `sfx` when `play` holds, none otherwise.
pub open spec fn play_if(play: bool, sfx: MusicSfx) -> Seq<MusicSfx> {
    if play {
        seq![sfx]
    } else {
        Seq::empty()
    }
}

/// Appends `n` plays of `sfx`.
fn push_repeated(sounds: &mut Vec<MusicSfx>, sfx: MusicSfx, n: usize)
    ensures
        final(sounds)@ == old(sounds)@ + repeated(sfx, n as nat),
{
    let ghost start = sounds@;
    let mut i: usize = 0;
    while i < n
        invariant
            i <= n,
            sounds@ == start + repeated(sfx, i as nat),
        decreases n - i,
    {
        sounds.push(sfx);
        i = i + 1;
        assert(sounds@ =~= start + repeated(sfx, i as nat));
    }
}

/// Appends one play of `sfx` when `play` holds.
fn push_if(sounds: &mut Vec<MusicSfx>, play: bool, sfx: MusicSfx)
    ensures
        final(sounds)@ == old(sounds)@ + play_if(play, sfx),
{
    if play {
        sounds.push(sfx);
    }
    assert(sounds@ =~= old(sounds)@ + play_if(play, sfx));
}

/// What one frame of a disc fight reported, as its sound policy reads it.
#[derive(Debug, Clone, Copy, PartialEq, Eq, Structural)]
pub struct DiscFightEvents {
    /// The player's disc struck the opponent.
    pub opponent_hit: bool,
    /// The player was derezzed.
    pub player_derezzed: bool,
    /// The player's shield caught a disc.
    pub shielded: bool,
    /// The player called the disc back.
    pub player_recalled: bool,
    /// The opponent threw its disc.
    pub opponent_threw: bool,
    /// Pickups collected this frame.
    pub collected: usize,
    /// This frame won the match.
    pub match_won: bool,
}

/// The effects one frame of a disc fight plays, in order: a crash for a hit
/// either way (unless the blow won the match, where the fanfare lands clean),
/// a turn for a shield, a recall or an opponent's throw, a portal per pickup,
/// and the victory fanfare for the win.
pub open spec fn spec_disc_fight_sounds(events: DiscFightEvents) -> Seq<MusicSfx> {
    play_if((events.opponent_hit || events.player_derezzed) && !events.match_won, MusicSfx::Crash)
        + play_if(events.shielded || events.player_recalled || events.opponent_threw, MusicSfx::Turn)
        + repeated(MusicSfx::Portal, events.collected as nat)
        + play_if(events.match_won, MusicSfx::Victory)
}

/// The effects one frame of a disc fight plays; see [`spec_disc_fight_sounds`].
pub fn disc_fight_sounds(events: DiscFightEvents) -> (sounds: Vec<MusicSfx>)
    ensures
        sounds@ == spec_disc_fight_sounds(events),
{
    let mut sounds: Vec<MusicSfx> = Vec::new();
    push_if(&mut sounds, (events.opponent_hit || events.player_derezzed) && !events.match_won, MusicSfx::Crash);
    push_if(&mut sounds, events.shielded || events.player_recalled || events.opponent_threw, MusicSfx::Turn);
    push_repeated(&mut sounds, MusicSfx::Portal, events.collected);
    push_if(&mut sounds, events.match_won, MusicSfx::Victory);
    assert(sounds@ =~= spec_disc_fight_sounds(events));
    sounds
}

/// On the blow that wins the match the fanfare replaces the crash: a winning
/// frame plays no crash, and it ends on the victory fanfare.
pub proof fn law_a_winning_blow_lands_clean(events: DiscFightEvents)
    requires
        events.match_won,
    ensures
        !spec_disc_fight_sounds(events).contains(MusicSfx::Crash),
        spec_disc_fight_sounds(events).last() == MusicSfx::Victory,
{
    let sounds = spec_disc_fight_sounds(events);
    assert forall|i: int| 0 <= i < sounds.len() implies sounds[i] != MusicSfx::Crash by {
        let turn = play_if(events.shielded || events.player_recalled || events.opponent_threw, MusicSfx::Turn);
        let portals = repeated(MusicSfx::Portal, events.collected as nat);
        assert(sounds =~= turn + portals + seq![MusicSfx::Victory]);
        if i < turn.len() {
        } else if i < turn.len() + portals.len() {
            assert(sounds[i] == portals[i - turn.len()]);
        }
    }
}

/// The effects one frame of the asteroid field plays, in order: a portal per
/// rock destroyed, a crash for a lost life, and the fanfare for a cleared field.
pub fn asteroid_field_sounds(destroyed: usize, lost_life: bool, cleared: bool) -> (sounds: Vec<MusicSfx>)
    ensures
        sounds@ == repeated(MusicSfx::Portal, destroyed as nat) + play_if(lost_life, MusicSfx::Crash)
            + play_if(cleared, MusicSfx::Victory),
{
    let mut sounds: Vec<MusicSfx> = Vec::new();
    push_repeated(&mut sounds, MusicSfx::Portal, destroyed);
    push_if(&mut sounds, lost_life, MusicSfx::Crash);
    push_if(&mut sounds, cleared, MusicSfx::Victory);
    assert(sounds@ =~= repeated(MusicSfx::Portal, destroyed as nat) + play_if(lost_life, MusicSfx::Crash)
        + play_if(cleared, MusicSfx::Victory));
    sounds
}

/// The effects one snake step plays, in order: a portal for a power-up eaten,
/// the beam when the exit opens, and the crash the first time a crash is noted.
pub fn snake_sounds(ate: bool, opened_exit: bool, first_crash: bool) -> (sounds: Vec<MusicSfx>)
    ensures
        sounds@ == play_if(ate, MusicSfx::Portal) + play_if(opened_exit, MusicSfx::Beam)
            + play_if(first_crash, MusicSfx::Crash),
{
    let mut sounds: Vec<MusicSfx> = Vec::new();
    push_if(&mut sounds, ate, MusicSfx::Portal);
    push_if(&mut sounds, opened_exit, MusicSfx::Beam);
    push_if(&mut sounds, first_crash, MusicSfx::Crash);
    assert(sounds@ =~= play_if(ate, MusicSfx::Portal) + play_if(opened_exit, MusicSfx::Beam)
        + play_if(first_crash, MusicSfx::Crash));
    sounds
}

/// The languages a source file can be written in.
#[derive(Debug, Clone, Copy, PartialEq, Eq, Structural)]
pub enum SourceLanguage {
    Rust,
    C,
    Cpp,
    Python,
    Slint,
    Lua,
    Shell,
    Toml,
    Json,
    Go,
    Ruby,
    Yaml,
    JavaScript,
    Zig,
    Php,
    R,
}

/// The short stand-in source the warp menu opens for a language, so any
/// game can be built without hunting for a real file of that language.
pub open spec fn spec_warp_source(language: SourceLanguage) -> Seq<char> {
    match language {
        SourceLanguage::Rust => "fn warp() {\n    let x = 1;\n}\nfn chase() {}\n"@,
        SourceLanguage::C => "int warp(void) {\n    return 1;\n}\nint chase(void) { return 0; }\n"@,
        SourceLanguage::Cpp => "int warp() {\n    return 1;\n}\nint chase() { return 0; }\n"@,
        SourceLanguage::Python => "def warp():\n    return 1\n\ndef chase():\n    return 0\n"@,
        SourceLanguage::Slint => "export component Warp {\n    in property <int> x: 1;\n}\n"@,
        SourceLanguage::Lua => "local function warp()\n    return 1\nend\nlocal function chase() return 0 end\n"@,
        SourceLanguage::Shell => "warp() {\n    echo 1\n}\nchase() { echo 0; }\n"@,
        SourceLanguage::Toml => "[warp]\nvalue = 1\n[chase]\nvalue = 0\n"@,
        SourceLanguage::Json => "{\n  \"warp\": 1,\n  \"chase\": 0\n}\n"@,
        SourceLanguage::Go => "package warp\n\nfunc warp() int {\n    return 1\n}\nfunc chase() int { return 0 }\n"@,
        SourceLanguage::Ruby => "def warp\n  1\nend\n\ndef chase\n  0\nend\n"@,
        SourceLanguage::Yaml => "warp: 1\nchase: 0\n"@,
        SourceLanguage::JavaScript => "function warp() {\n    return 1;\n}\nconst chase = () => 0;\n"@,
        SourceLanguage::Zig => "fn warp() i32 {\n    return 1;\n}\nfn chase() i32 { return 0; }\n"@,
        SourceLanguage::Php => "<?php\nfunction warp() {\n    return 1;\n}\nfunction chase() { return 0; }\n"@,
        SourceLanguage::R => "warp <- function() {\n    1\n}\nchase <- function() { 0 }\n"@,
    }
}

/// The short stand-in source the warp menu opens for a language.
pub fn warp_source(language: SourceLanguage) -> (text: &'static str)
    ensures
        text@ == spec_warp_source(language),
{
    match language {
        SourceLanguage::Rust => "fn warp() {\n    let x = 1;\n}\nfn chase() {}\n",
        SourceLanguage::C => "int warp(void) {\n    return 1;\n}\nint chase(void) { return 0; }\n",
        SourceLanguage::Cpp => "int warp() {\n    return 1;\n}\nint chase() { return 0; }\n",
        SourceLanguage::Python => "def warp():\n    return 1\n\ndef chase():\n    return 0\n",
        SourceLanguage::Slint => "export component Warp {\n    in property <int> x: 1;\n}\n",
        SourceLanguage::Lua => "local function warp()\n    return 1\nend\nlocal function chase() return 0 end\n",
        SourceLanguage::Shell => "warp() {\n    echo 1\n}\nchase() { echo 0; }\n",
        SourceLanguage::Toml => "[warp]\nvalue = 1\n[chase]\nvalue = 0\n",
        SourceLanguage::Json => "{\n  \"warp\": 1,\n  \"chase\": 0\n}\n",
        SourceLanguage::Go => "package warp\n\nfunc warp() int {\n    return 1\n}\nfunc chase() int { return 0 }\n",
        SourceLanguage::Ruby => "def warp\n  1\nend\n\ndef chase\n  0\nend\n",
        SourceLanguage::Yaml => "warp: 1\nchase: 0\n",
        SourceLanguage::JavaScript => "function warp() {\n    return 1;\n}\nconst chase = () => 0;\n",
        SourceLanguage::Zig => "fn warp() i32 {\n    return 1;\n}\nfn chase() i32 { return 0; }\n",
        SourceLanguage::Php => "<?php\nfunction warp() {\n    return 1;\n}\nfunction chase() { return 0; }\n",
        SourceLanguage::R => "warp <- function() {\n    1\n}\nchase <- function() { 0 }\n",
    }
}

} // verus!
