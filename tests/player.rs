use relay_music::note_player::{NotePlayer, NotePlayerStatus, PinLevel, TickAction};
use relay_music::notes::{Duration, Note};
use relay_music::songs::ode_to_joy;
use relay_music::track::{validate_track, ConfigError};

#[test]
fn frequency_table_values() {
    assert_eq!(Note::C(4).note_to_relay_frequence(), 523);
    assert_eq!(Note::D(5).note_to_relay_frequence(), 1174);
    assert_eq!(Note::A(3).note_to_relay_frequence(), 440);
    assert_eq!(Note::Fs(3).note_to_relay_frequence(), 371);
    assert_eq!(Note::B(4).note_to_relay_frequence(), 989);
}

#[test]
fn frequency_is_repeatable_and_positive() {
    let notes = [
        Note::C(3), Note::C(4), Note::C(5), Note::D(3), Note::D(4), Note::D(5),
        Note::E(3), Note::E(4), Note::F(3), Note::F(4), Note::Fs(3), Note::Fs(4),
        Note::G(3), Note::G(4), Note::A(3), Note::A(4), Note::B(3), Note::B(4),
    ];
    for note in notes.iter() {
        let first = note.note_to_relay_frequence();
        assert!(first > 0);
        assert_eq!(note.note_to_relay_frequence(), first);
        assert_eq!(note.frequency(), Some(first));
    }
}

#[test]
fn unsupported_notes_have_no_frequency() {
    assert_eq!(Note::C(2).frequency(), None);
    assert_eq!(Note::E(5).frequency(), None);
    assert_eq!(Note::A(0).frequency(), None);
}

#[test]
fn duration_ticks() {
    assert_eq!(Duration::Whole.ticks(), 16);
    assert_eq!(Duration::Half.ticks(), 8);
    assert_eq!(Duration::OneFourth.ticks(), 4);
    assert_eq!(Duration::OneEigth.ticks(), 2);
    assert_eq!(Duration::OneSixteenth.ticks(), 1);
}

#[test]
fn validation_accepts_supported_track() {
    let track = [(Note::C(4), Duration::OneFourth), (Note::D(3), Duration::Whole)];
    assert_eq!(validate_track(0, &track), Ok(()));
}

#[test]
fn validation_rejects_empty_track() {
    let track: [(Note, Duration); 0] = [];
    assert_eq!(validate_track(2, &track), Err(ConfigError::EmptyTrack { channel: 2 }));
}

#[test]
fn validation_reports_first_unsupported_note() {
    let track = [
        (Note::C(4), Duration::OneFourth),
        (Note::E(5), Duration::Half),
        (Note::G(7), Duration::Half),
    ];
    assert_eq!(
        validate_track(1, &track),
        Err(ConfigError::UnsupportedNote { channel: 1, index: 1 })
    );
}

#[test]
fn ode_to_joy_is_valid() {
    let (c1, c2, c3, c4) = ode_to_joy();
    assert_eq!(validate_track(0, &c1), Ok(()));
    assert_eq!(validate_track(1, &c2), Ok(()));
    assert_eq!(validate_track(2, &c3), Ok(()));
    assert_eq!(validate_track(3, &c4), Ok(()));
    assert_eq!(c1[14].1.ticks(), 8);
    assert_eq!(c2[0].0.note_to_relay_frequence(), 587);
}

#[test]
fn new_player_starts_at_first_note() {
    let track = [(Note::G(4), Duration::Half)];
    let player = NotePlayer::new(&track);
    assert_eq!(player.status(), NotePlayerStatus::Start);
    assert_eq!(player.current_note_idx(), 0);
    assert_eq!(player.duration_counter(), 0);
}

#[test]
fn first_tick_programs_first_note_whatever_the_clock() {
    let track = [(Note::A(4), Duration::OneFourth), (Note::C(4), Duration::OneFourth)];
    let mut player = NotePlayer::new(&track);
    assert_eq!(player.tick(true), TickAction::StartNote(1760));
    assert_eq!(player.status(), NotePlayerStatus::Up);
    assert_eq!(player.current_note_idx(), 0);
    assert_eq!(player.duration_counter(), 0);

    let mut other = NotePlayer::new(&track);
    assert_eq!(other.tick(false), TickAction::StartNote(1760));
    assert_eq!(other.status(), NotePlayerStatus::Up);
}

#[test]
fn single_note_track_wraps_to_itself() {
    let track = [(Note::C(4), Duration::OneFourth)];
    let mut player = NotePlayer::new(&track);
    assert_eq!(player.tick(false), TickAction::StartNote(1046));
    for count in 1..4u8 {
        assert_eq!(player.tick(true), TickAction::PollNoteTimer);
        assert_eq!(player.current_note_idx(), 0);
        assert_eq!(player.duration_counter(), count);
        assert_eq!(player.note_timer_wrapped(), if count % 2 == 1 { PinLevel::Low } else { PinLevel::High });
    }
    assert_eq!(player.tick(true), TickAction::StartNote(1046));
    assert_eq!(player.current_note_idx(), 0);
    assert_eq!(player.duration_counter(), 0);
    assert_eq!(player.status(), NotePlayerStatus::Up);
}

#[test]
fn two_note_track_advances_every_four_ticks() {
    let track = [(Note::C(4), Duration::OneFourth), (Note::D(4), Duration::OneFourth)];
    let mut player = NotePlayer::new(&track);
    assert_eq!(player.tick(false), TickAction::StartNote(1046));
    for _ in 0..3 {
        assert_eq!(player.tick(true), TickAction::PollNoteTimer);
        assert_eq!(player.current_note_idx(), 0);
    }
    assert_eq!(player.tick(true), TickAction::StartNote(1174));
    assert_eq!(player.current_note_idx(), 1);
    for _ in 0..3 {
        assert_eq!(player.tick(true), TickAction::PollNoteTimer);
        assert_eq!(player.current_note_idx(), 1);
    }
    assert_eq!(player.tick(true), TickAction::StartNote(1046));
    assert_eq!(player.current_note_idx(), 0);
}

#[test]
fn channels_progress_independently() {
    let (melody, bass, _, _) = ode_to_joy();
    let mut a = NotePlayer::new(&melody);
    let mut b = NotePlayer::new(&bass);
    a.tick(false);
    b.tick(false);
    let mut alone = NotePlayer::new(&melody);
    alone.tick(false);
    for step in 0..200u32 {
        let elapsed = step % 3 != 0;
        a.tick(elapsed);
        b.tick(elapsed);
        alone.tick(elapsed);
        assert_eq!(a.current_note_idx(), alone.current_note_idx());
        assert_eq!(a.duration_counter(), alone.duration_counter());
    }
    // The melody's quarter notes move on after 4 ticks, the bass's whole
    // notes after 16.
    let mut c = NotePlayer::new(&melody);
    let mut d = NotePlayer::new(&bass);
    c.tick(false);
    d.tick(false);
    for _ in 0..16 {
        c.tick(true);
        d.tick(true);
    }
    assert_eq!(c.current_note_idx(), 4);
    assert_eq!(d.current_note_idx(), 1);
}

#[test]
fn square_wave_toggles_only_on_timer() {
    let track = [(Note::E(4), Duration::Whole)];
    let mut player = NotePlayer::new(&track);
    assert_eq!(player.tick(false), TickAction::StartNote(1318));
    for _ in 0..5 {
        assert_eq!(player.tick(false), TickAction::PollNoteTimer);
        assert_eq!(player.status(), NotePlayerStatus::Up);
    }
    assert_eq!(player.note_timer_wrapped(), PinLevel::Low);
    assert_eq!(player.status(), NotePlayerStatus::Down);
    assert_eq!(player.tick(false), TickAction::PollNoteTimer);
    assert_eq!(player.status(), NotePlayerStatus::Down);
    assert_eq!(player.note_timer_wrapped(), PinLevel::High);
    assert_eq!(player.status(), NotePlayerStatus::Up);
}

#[test]
fn increment_note_wraps_after_last() {
    let track = [(Note::C(4), Duration::Half), (Note::D(4), Duration::Half)];
    let mut player = NotePlayer::new(&track);
    player.tick(false);
    player.increment_note();
    assert_eq!(player.current_note_idx(), 1);
    assert_eq!(player.status(), NotePlayerStatus::Start);
    player.increment_note();
    assert_eq!(player.current_note_idx(), 0);
    assert_eq!(player.get_current_note().0.note_to_relay_frequence(), 523);
}

#[test]
fn duration_ignored_before_note_starts() {
    let track = [(Note::C(4), Duration::OneSixteenth), (Note::D(4), Duration::Half)];
    let mut player = NotePlayer::new(&track);
    player.increment_note_if_timer_wrapped(true);
    assert_eq!(player.current_note_idx(), 0);
    assert_eq!(player.duration_counter(), 0);
    player.tick(false);
    player.increment_note_if_timer_wrapped(true);
    assert_eq!(player.current_note_idx(), 1);
    assert_eq!(player.status(), NotePlayerStatus::Start);
}
