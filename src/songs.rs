use vstd::prelude::*;

use crate::notes::{Duration, Note};
use crate::track::valid_track;

verus! {

/// Ode to Joy, channel 1: the melody.
pub open spec fn ode_to_joy_channel1() -> Seq<(Note, Duration)> {
    seq![
        (Note::B(4), Duration::OneFourth),
        (Note::B(4), Duration::OneFourth),
        (Note::C(5), Duration::OneFourth),
        (Note::D(5), Duration::OneFourth),
        (Note::D(5), Duration::OneFourth),
        (Note::C(5), Duration::OneFourth),
        (Note::B(4), Duration::OneFourth),
        (Note::A(4), Duration::OneFourth),
        (Note::G(4), Duration::OneFourth),
        (Note::G(4), Duration::OneFourth),
        (Note::A(4), Duration::OneFourth),
        (Note::B(4), Duration::OneFourth),
        (Note::B(4), Duration::OneEigth),
        (Note::A(4), Duration::OneEigth),
        (Note::A(4), Duration::Half),
    ]
}

/// Ode to Joy, channel 2: the upper accompaniment.
pub open spec fn ode_to_joy_channel2() -> Seq<(Note, Duration)> {
    seq![
        (Note::D(4), Duration::Whole),
        (Note::D(4), Duration::Whole),
        (Note::D(4), Duration::Whole),
        (Note::D(4), Duration::Half),
        (Note::D(4), Duration::Half),
    ]
}

/// Ode to Joy, channel 3: the middle accompaniment.
pub open spec fn ode_to_joy_channel3() -> Seq<(Note, Duration)> {
    seq![
        (Note::B(3), Duration::Whole),
        (Note::A(3), Duration::Whole),
        (Note::B(3), Duration::Whole),
        (Note::B(3), Duration::Half),
        (Note::A(3), Duration::Half),
    ]
}

/// Ode to Joy, channel 4: the lowest accompaniment.
pub open spec fn ode_to_joy_channel4() -> Seq<(Note, Duration)> {
    seq![
        (Note::G(3), Duration::Whole),
        (Note::Fs(3), Duration::Whole),
        (Note::G(3), Duration::Whole),
        (Note::G(3), Duration::Half),
        (Note::Fs(3), Duration::Half),
    ]
}

/// The four channels of Ode to Joy, as (pitch, length) pairs.
pub fn ode_to_joy() -> (r: (
    [(Note, Duration); 15],
    [(Note, Duration); 5],
    [(Note, Duration); 5],
    [(Note, Duration); 5],
))
    ensures
        r.0@ == ode_to_joy_channel1(),
        r.1@ == ode_to_joy_channel2(),
        r.2@ == ode_to_joy_channel3(),
        r.3@ == ode_to_joy_channel4(),
{
    let channel1_notes = [
        (Note::B(4), Duration::OneFourth),
        (Note::B(4), Duration::OneFourth),
        (Note::C(5), Duration::OneFourth),
        (Note::D(5), Duration::OneFourth),
        (Note::D(5), Duration::OneFourth),
        (Note::C(5), Duration::OneFourth),
        (Note::B(4), Duration::OneFourth),
        (Note::A(4), Duration::OneFourth),
        (Note::G(4), Duration::OneFourth),
        (Note::G(4), Duration::OneFourth),
        (Note::A(4), Duration::OneFourth),
        (Note::B(4), Duration::OneFourth),
        (Note::B(4), Duration::OneEigth),
        (Note::A(4), Duration::OneEigth),
        (Note::A(4), Duration::Half),
    ];
    let channel2_notes = [
        (Note::D(4), Duration::Whole),
        (Note::D(4), Duration::Whole),
        (Note::D(4), Duration::Whole),
        (Note::D(4), Duration::Half),
        (Note::D(4), Duration::Half),
    ];
    let channel3_notes = [
        (Note::B(3), Duration::Whole),
        (Note::A(3), Duration::Whole),
        (Note::B(3), Duration::Whole),
        (Note::B(3), Duration::Half),
        (Note::A(3), Duration::Half),
    ];
    let channel4_notes = [
        (Note::G(3), Duration::Whole),
        (Note::Fs(3), Duration::Whole),
        (Note::G(3), Duration::Whole),
        (Note::G(3), Duration::Half),
        (Note::Fs(3), Duration::Half),
    ];
    assert(channel1_notes@ =~= ode_to_joy_channel1());
    assert(channel2_notes@ =~= ode_to_joy_channel2());
    assert(channel3_notes@ =~= ode_to_joy_channel3());
    assert(channel4_notes@ =~= ode_to_joy_channel4());
    (channel1_notes, channel2_notes, channel3_notes, channel4_notes)
}

/// Every channel of Ode to Joy passes the validation before playback.
pub proof fn lemma_ode_to_joy_is_valid()
    ensures
        valid_track(ode_to_joy_channel1()),
        valid_track(ode_to_joy_channel2()),
        valid_track(ode_to_joy_channel3()),
        valid_track(ode_to_joy_channel4()),
{
}

} // verus!
