use vstd::prelude::*;

verus! {

/// A pitch class together with its octave.
pub enum Note {
    C(usize),
    D(usize),
    E(usize),
    F(usize),
    Fs(usize),
    G(usize),
    A(usize),
    B(usize),
}

/// The relay frequency table, in hertz; `None` for a note without an entry.
pub open spec fn frequency_table(note: Note) -> Option<u32> {
    match note {
        Note::C(o) => if o == 3 { Some(330u32) } else if o == 4 { Some(523u32) } else if o == 5 { Some(1045u32) } else { None },
        Note::D(o) => if o == 3 { Some(294u32) } else if o == 4 { Some(587u32) } else if o == 5 { Some(1174u32) } else { None },
        Note::E(o) => if o == 3 { Some(330u32) } else if o == 4 { Some(659u32) } else { None },
        Note::F(o) => if o == 3 { Some(350u32) } else if o == 4 { Some(698u32) } else { None },
        Note::Fs(o) => if o == 3 { Some(371u32) } else if o == 4 { Some(745u32) } else { None },
        Note::G(o) => if o == 3 { Some(393u32) } else if o == 4 { Some(784u32) } else { None },
        Note::A(o) => if o == 3 { Some(440u32) } else if o == 4 { Some(880u32) } else { None },
        Note::B(o) => if o == 3 { Some(394u32) } else if o == 4 { Some(989u32) } else { None },
    }
}

/// The largest frequency of the table.
pub const MAX_FREQUENCY: u32 = 1174;

impl Note {
    /// The note has an entry in the frequency table.
    pub open spec fn is_supported(self) -> bool {
        frequency_table(self) is Some
    }

    /// The frequency of a supported note.
    pub open spec fn spec_frequency(self) -> nat
        recommends
            self.is_supported(),
    {
        frequency_table(self).unwrap() as nat
    }

    /// Looks the note up in the frequency table.
    pub fn frequency(&self) -> (r: Option<u32>)
        ensures
            r == frequency_table(*self),
    {
        match self {
            Note::C(octave) => match *octave {
                3 => Some(330),
                4 => Some(523),
                5 => Some(1045),
                _ => None,
            },
            Note::D(octave) => match *octave {
                3 => Some(294),
                4 => Some(587),
                5 => Some(1174),
                _ => None,
            },
            Note::E(octave) => match *octave {
                3 => Some(330),
                4 => Some(659),
                _ => None,
            },
            Note::F(octave) => match *octave {
                3 => Some(350),
                4 => Some(698),
                _ => None,
            },
            Note::Fs(octave) => match *octave {
                3 => Some(371),
                4 => Some(745),
                _ => None,
            },
            Note::G(octave) => match *octave {
                3 => Some(393),
                4 => Some(784),
                _ => None,
            },
            Note::A(octave) => match *octave {
                3 => Some(440),
                4 => Some(880),
                _ => None,
            },
            Note::B(octave) => match *octave {
                3 => Some(394),
                4 => Some(989),
                _ => None,
            },
        }
    }

    /// The frequency, in hertz, at which the relay plays a supported note.
    pub fn note_to_relay_frequence(&self) -> (r: u32)
        requires
            self.is_supported(),
        ensures
            r as nat == self.spec_frequency(),
            0 < r <= MAX_FREQUENCY,
    {
        proof {
            lemma_frequency_positive(*self);
        }
        match self.frequency() {
            Some(f) => f,
            None => 0,
        }
    }
}

/// Every note of the table has a positive frequency, no larger than
/// `MAX_FREQUENCY`; a lookup yields one value for one note.
pub proof fn lemma_frequency_positive(note: Note)
    requires
        note.is_supported(),
    ensures
        0 < note.spec_frequency() <= MAX_FREQUENCY as nat,
        frequency_table(note) == Some(note.spec_frequency() as u32),
{
}

/// A note length, counted in sixteenths of a whole note.
pub enum Duration {
    Whole,
    Half,
    OneFourth,
    OneEigth,
    OneSixteenth,
}

impl Duration {
    /// Number of duration-clock ticks that a note of this length lasts.
    pub open spec fn spec_ticks(self) -> nat {
        match self {
            Duration::Whole => 16,
            Duration::Half => 8,
            Duration::OneFourth => 4,
            Duration::OneEigth => 2,
            Duration::OneSixteenth => 1,
        }
    }

    pub fn ticks(&self) -> (r: u8)
        ensures
            r as nat == self.spec_ticks(),
            r > 0,
    {
        match self {
            Duration::Whole => 16,
            Duration::Half => 8,
            Duration::OneFourth => 4,
            Duration::OneEigth => 2,
            Duration::OneSixteenth => 1,
        }
    }
}

} // verus!
