use raptor::minigame::{GameSound, GameTick};
use raptor::ride::{
    crash_source, game_sfx, step_uniform, asteroid_field_sounds, disc_fight_sounds, snake_sounds,
    DiscFightEvents,
    crash_label, is_quarantined, resolve_outcome, warp_source, CrashReason, LabelUpdate,
    MusicSfx, PhaseUpdate, RideRequest, SourceLanguage, StepOutcome, WallContext,
};

fn open_wall() -> WallContext {
    WallContext { locked_exit: false, street_wall: false, document: false, source: false }
}

#[test]
fn heavy_build_directories_are_quarantined() {
    assert!(is_quarantined("/home/me/project/node_modules"));
    assert!(is_quarantined("/home/me/project/target/debug"));
    assert!(is_quarantined("/srv/.git"));
    assert!(!is_quarantined("/home/me/project/src"));
    assert!(!is_quarantined("/home/me"));
    assert!(is_quarantined("/home/me/Node_Modules"));
}

#[test]
fn crashes_are_blamed_on_what_was_hit() {
    assert_eq!(crash_label(CrashReason::File, Some("a.txt"), open_wall()), "file a.txt");
    assert_eq!(crash_label(CrashReason::File, None, open_wall()), "file");
    assert_eq!(crash_label(CrashReason::Trail, None, open_wall()), "your trail");
    assert_eq!(crash_label(CrashReason::Wall, None, open_wall()), "a dead bus line");
    let street = WallContext { street_wall: true, ..open_wall() };
    assert_eq!(crash_label(CrashReason::Wall, None, street), "street barrier");
    assert_eq!(crash_label(CrashReason::Wall, None, WallContext { document: true, ..street }), "paragraph");
    assert_eq!(crash_label(CrashReason::Wall, None, WallContext { source: true, ..street }), "ring wall");
    assert_eq!(
        crash_label(CrashReason::Wall, None, WallContext { locked_exit: true, ..street }),
        "the locked exit"
    );
}

#[test]
fn step_outcomes_set_the_labels_and_requests() {
    let entered = resolve_outcome(StepOutcome::EnteringDir(2), Some("src"), true, open_wall());
    assert_eq!(entered.entering_label, LabelUpdate::To("DMA → src".to_string()));
    assert_eq!(entered.crash_label, LabelUpdate::Clear);
    assert_eq!(entered.sound, Some(MusicSfx::Beam));
    assert_eq!(entered.request, RideRequest::Directory(2));

    let missing = resolve_outcome(StepOutcome::EnteringDir(2), None, true, open_wall());
    assert_eq!(missing.phase, PhaseUpdate::Crashed);
    assert_eq!(missing.crash_label, LabelUpdate::To("unmapped address".to_string()));

    let unreadable = resolve_outcome(StepOutcome::EnteringDocument(0), None, true, open_wall());
    assert_eq!(unreadable.phase, PhaseUpdate::Running);
    assert_eq!(unreadable.crash_label, LabelUpdate::To("unreadable sector".to_string()));

    let up = resolve_outcome(StepOutcome::GoToParent, None, true, open_wall());
    assert_eq!(up.entering_label, LabelUpdate::To("RET → parent".to_string()));
    assert_eq!(up.request, RideRequest::Parent);
    let root = resolve_outcome(StepOutcome::GoToParent, None, false, open_wall());
    assert_eq!(root.phase, PhaseUpdate::Crashed);

    let crash = resolve_outcome(StepOutcome::Crashed(CrashReason::Trail), None, true, open_wall());
    assert_eq!(crash.crash_label, LabelUpdate::To("your trail".to_string()));
    assert_eq!(crash.entering_label, LabelUpdate::Clear);

    let close = resolve_outcome(StepOutcome::CloseDocument, None, true, open_wall());
    assert_eq!(close.request, RideRequest::RestoreDirectory);
    let moved = resolve_outcome(StepOutcome::Moved, None, true, open_wall());
    assert_eq!(moved.request, RideRequest::Stay);
}

#[test]
fn every_language_has_a_stand_in_source() {
    assert_eq!(warp_source(SourceLanguage::Yaml), "warp: 1\nchase: 0\n");
    assert!(warp_source(SourceLanguage::Rust).starts_with("fn warp()"));
    assert!(warp_source(SourceLanguage::Json).contains("\"warp\": 1"));
}

#[test]
fn minigame_sounds_play_in_order_as_music_effects() {
    let mut tick = GameTick::new();
    tick.sound(GameSound::Portal);
    tick.sound(GameSound::Beam);
    tick.sound(GameSound::Zap);
    tick.cleared = true;
    let step = step_uniform(tick, true);
    assert_eq!(step.sounds, vec![MusicSfx::Portal, MusicSfx::Beam, MusicSfx::Zap]);
    assert!(step.cleared);
    assert_eq!(step.effect.crash_label, LabelUpdate::Keep);
    assert_eq!(step.effect.phase, PhaseUpdate::Keep);
    assert_eq!(step.effect.sound, None);
}

#[test]
fn a_lost_minigame_crashes_the_run_with_its_label() {
    let mut tick = GameTick::new();
    tick.sound(GameSound::Crash);
    tick.lost = true;
    tick.label = Some(String::from("the stack of indentation"));
    let step = step_uniform(tick, true);
    assert_eq!(step.sounds, vec![MusicSfx::Crash]);
    assert_eq!(step.effect.crash_label, LabelUpdate::To(String::from("the stack of indentation")));
    assert_eq!(step.effect.entering_label, LabelUpdate::Clear);
    assert_eq!(step.effect.phase, PhaseUpdate::Crashed);
    assert_eq!(step.effect.sound, Some(MusicSfx::GameOver));
}

#[test]
fn an_unlabelled_loss_reads_as_the_crash() {
    let mut tick = GameTick::new();
    tick.lost = true;
    let step = step_uniform(tick, true);
    assert_eq!(step.effect.crash_label, LabelUpdate::To(String::from("the crash")));
}

#[test]
fn a_run_already_over_is_not_crashed_again() {
    let effect = crash_source(false, "late");
    assert_eq!(effect.crash_label, LabelUpdate::Keep);
    assert_eq!(effect.phase, PhaseUpdate::Keep);
    assert_eq!(effect.sound, None);
    assert_eq!(game_sfx(GameSound::Victory), MusicSfx::Victory);
}

fn quiet_fight() -> DiscFightEvents {
    DiscFightEvents {
        opponent_hit: false,
        player_derezzed: false,
        shielded: false,
        player_recalled: false,
        opponent_threw: false,
        collected: 0,
        match_won: false,
    }
}

#[test]
fn a_hit_that_does_not_win_plays_the_crash() {
    let events = DiscFightEvents { opponent_hit: true, opponent_threw: true, collected: 2, ..quiet_fight() };
    assert_eq!(
        disc_fight_sounds(events),
        vec![MusicSfx::Crash, MusicSfx::Turn, MusicSfx::Portal, MusicSfx::Portal]
    );
}

#[test]
fn the_winning_blow_plays_the_fanfare_instead_of_the_crash() {
    let events = DiscFightEvents { opponent_hit: true, match_won: true, ..quiet_fight() };
    assert_eq!(disc_fight_sounds(events), vec![MusicSfx::Victory]);
    assert!(disc_fight_sounds(quiet_fight()).is_empty());
}

#[test]
fn the_asteroid_field_chimes_per_rock() {
    assert_eq!(
        asteroid_field_sounds(3, true, false),
        vec![MusicSfx::Portal, MusicSfx::Portal, MusicSfx::Portal, MusicSfx::Crash]
    );
    assert_eq!(asteroid_field_sounds(0, false, true), vec![MusicSfx::Victory]);
}

#[test]
fn a_snake_step_plays_its_events_in_order() {
    assert_eq!(snake_sounds(true, true, false), vec![MusicSfx::Portal, MusicSfx::Beam]);
    assert_eq!(snake_sounds(false, false, true), vec![MusicSfx::Crash]);
    assert!(snake_sounds(false, false, false).is_empty());
}
