use vstd::prelude::*;

pub mod note_player;
pub mod notes;
pub mod songs;
pub mod track;

verus! {

} // verus!
