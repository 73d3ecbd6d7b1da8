use vstd::prelude::*;
use crate::basetype::{PatternID, Timebase};

verus! {

/// What identifies a placement ("display") of a pattern on a channel's
/// timeline: the pattern it shows and the time at which it starts.
#[derive(Copy, Clone, Debug, PartialEq, Eq, Structural)]
pub struct DisplayRef {
    pub pattern_id: PatternID,
    pub start_time: Timebase,
}

/// Whether a display shows `pattern_id` starting at `start_time`.
pub open spec fn display_matches(d: DisplayRef, pattern_id: PatternID, start_time: Timebase) -> bool {
    d.pattern_id == pattern_id && d.start_time == start_time
}

/// `idx` is the position of the first display that matches, or the number
/// of displays when none does.
pub open spec fn is_first_match(
    displays: Seq<DisplayRef>,
    pattern_id: PatternID,
    start_time: Timebase,
    idx: int,
) -> bool {
    &&& 0 <= idx <= displays.len()
    &&& forall|j: int| 0 <= j < idx ==> !display_matches(#[trigger] displays[j], pattern_id, start_time)
    &&& idx < displays.len() ==> display_matches(displays[idx], pattern_id, start_time)
}

/// Scans the displays of a channel for the first one that shows
/// `pattern_id` at `start_time`; returns its index, or the number of
/// displays when there is none.
pub fn find_display(displays: &Vec<DisplayRef>, pattern_id: PatternID, start_time: Timebase) -> (idx: usize)
    ensures
        is_first_match(displays@, pattern_id, start_time, idx as int),
{
    let mut i: usize = 0;
    while i < displays.len()
        invariant
            i <= displays.len(),
            forall|j: int| 0 <= j < i ==> !display_matches(#[trigger] displays@[j], pattern_id, start_time),
        decreases displays.len() - i,
    {
        if displays[i].pattern_id == pattern_id && displays[i].start_time == start_time {
            return i;
        }
        i = i + 1;
    }
    i
}

/// The display to remove for a delete request: the first display that
/// shows `pattern_id` at `start_time`, or `None` (the request is ignored)
/// when no display matches.
pub fn display_to_delete(displays: &Vec<DisplayRef>, pattern_id: PatternID, start_time: Timebase) -> (r: Option<usize>)
    ensures
        r is None <==> forall|j: int| 0 <= j < displays@.len() ==> !display_matches(#[trigger] displays@[j], pattern_id, start_time),
        r matches Some(i) ==> is_first_match(displays@, pattern_id, start_time, i as int) && i < displays@.len(),
{
    let idx = find_display(displays, pattern_id, start_time);
    if idx >= displays.len() {
        None
    } else {
        Some(idx)
    }
}

/// Which pattern of the song is open for editing (`None` when no pattern is).
pub struct PatternSelection {
    active: Option<usize>,
}

impl View for PatternSelection {
    type V = Option<usize>;

    closed spec fn view(&self) -> Option<usize> {
        self.active
    }
}

impl PatternSelection {
    /// No pattern is selected at first.
    pub fn new() -> (s: PatternSelection)
        ensures
            s@ is None,
    {
        PatternSelection { active: None }
    }

    /// Whether selecting `id` needs the song to look up the pattern's index:
    /// the identifier `0` deselects without a lookup.
    pub fn needs_lookup(id: PatternID) -> (b: bool)
        ensures
            b == (id != 0),
    {
        id != 0
    }

    /// Selects the pattern `id`; `found` is the song's index for it.
    /// The identifier `0` deselects, whatever `found` holds.
    pub fn set_active_pattern(&mut self, id: PatternID, found: Option<usize>)
        ensures
            final(self)@ == (if id == 0 { None } else { found }),
    {
        if id == 0 {
            self.active = None;
        } else {
            self.active = found;
        }
    }

    /// The pattern open for editing; edits are ignored while this is `None`.
    pub fn active(&self) -> (r: Option<usize>)
        ensures
            r == self@,
    {
        self.active
    }
}

/// At most one index is the first match: the lookups above pin their
/// result down.
pub proof fn lemma_first_match_unique(
    displays: Seq<DisplayRef>,
    pattern_id: PatternID,
    start_time: Timebase,
    i: int,
    k: int,
)
    requires
        is_first_match(displays, pattern_id, start_time, i),
        is_first_match(displays, pattern_id, start_time, k),
    ensures
        i == k,
{
    if i < k {
        assert(!display_matches(displays[i], pattern_id, start_time));
    } else if k < i {
        assert(!display_matches(displays[k], pattern_id, start_time));
    }
}

} // verus!
