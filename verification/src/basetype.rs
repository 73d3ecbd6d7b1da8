use vstd::prelude::*;

verus! {

/// Signal level; 8-bit music uses a signed byte.
pub type Level = i8;

/// Time base (grid unit of a pattern).
pub type Timebase = u32;

/// One time stamp per rendered sample.
pub type Timestamp = u32;

/// Kind of a note event.
pub type NoteType = i8;

/// Pitch of a note.
pub type Note = u8;

/// Channel identifier.
pub type ChannelID = u8;

/// Pattern identifier; `0` means "no pattern".
pub type PatternID = u32;

/// A MIDI-like note event.
pub struct Midi {
    /// Pitch of the event.
    pub note: Note,
    /// Kind of the event.
    pub typ: NoteType,
}

impl Clone for Midi {
    fn clone(&self) -> (res: Self)
        ensures
            res == *self,
    {
        Midi { note: self.note, typ: self.typ }
    }
}

/// Stage of an ADSR envelope.
#[derive(Copy, Clone, Debug, PartialEq, Eq, Structural)]
pub enum EnvelopeStage {
    Attack,
    Decay,
    Sustain,
    Release,
    /// The envelope is inactive.
    Off,
}

} // verus!
