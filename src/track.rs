use vstd::prelude::*;

use crate::notes::{Duration, Note};

verus! {

/// A track can be played: it has at least one note and every note has an
/// entry in the frequency table.
pub open spec fn valid_track(notes: Seq<(Note, Duration)>) -> bool {
    &&& notes.len() > 0
    &&& forall|i: int| 0 <= i < notes.len() ==> (#[trigger] notes[i]).0.is_supported()
}

/// What makes a channel's track unplayable.
#[derive(PartialEq, Eq, Structural, Clone, Copy, Debug)]
pub enum ConfigError {
    /// The track holds no note.
    EmptyTrack { channel: usize },
    /// The note at `index` has no entry in the frequency table.
    UnsupportedNote { channel: usize, index: usize },
}

/// Checks one channel's track before playback, reporting the first problem.
pub fn validate_track(channel: usize, notes: &[(Note, Duration)]) -> (r: Result<(), ConfigError>)
    ensures
        r is Ok <==> valid_track(notes@),
        notes@.len() == 0 <==> r == Err::<(), ConfigError>(ConfigError::EmptyTrack { channel }),
        forall|index: usize|
            r == Err::<(), ConfigError>(ConfigError::UnsupportedNote { channel, index }) <==> {
                &&& index < notes@.len()
                &&& !notes@[index as int].0.is_supported()
                &&& forall|j: int| 0 <= j < index ==> (#[trigger] notes@[j]).0.is_supported()
            },
{
    if notes.len() == 0 {
        return Err(ConfigError::EmptyTrack { channel });
    }
    let mut i: usize = 0;
    while i < notes.len()
        invariant
            0 <= i <= notes@.len(),
            forall|j: int| 0 <= j < i ==> (#[trigger] notes@[j]).0.is_supported(),
        decreases notes@.len() - i,
    {
        if notes[i].0.frequency().is_none() {
            return Err(ConfigError::UnsupportedNote { channel, index: i });
        }
        i = i + 1;
    }
    Ok(())
}

/// A track that holds a note without an entry in the frequency table is not
/// valid, so `validate_track` refuses it and playback never begins.
pub proof fn lemma_unsupported_note_refused(notes: Seq<(Note, Duration)>, index: int)
    requires
        0 <= index < notes.len(),
        !notes[index].0.is_supported(),
    ensures
        !valid_track(notes),
{
}

} // verus!
