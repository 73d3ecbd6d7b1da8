use vstd::prelude::*;

verus! {

/// A request from the user interface to the player.
#[derive(Copy, Clone, Debug, PartialEq, Eq, Structural)]
pub enum TransportCommand {
    Play,
    Pause,
    Reset,
    ReloadAndPlay,
}

/// The outside work that a command asks for. The audio work itself (sources,
/// buffers, clocks) is done by the caller; when it succeeds the caller
/// reports back with [`Transport::commit`]; when it fails nothing changes.
#[derive(Copy, Clone, Debug, PartialEq, Eq, Structural)]
pub enum TransportAction {
    /// No audio work: the command succeeds as it is.
    Nothing,
    /// Render the song into a fresh looping source and start it, at the
    /// remembered pause position when `from_pause`, else at the beginning.
    Start { from_pause: bool },
    /// Stop the current source and remember the playhead position.
    StopAndRemember,
    /// Stop the current source and rewind both clocks to zero.
    StopAndRewind,
    /// Stop the current source when `stop_current`, re-render the song and
    /// start a fresh source at the current playhead position.
    Restart { stop_current: bool },
}

/// Mathematical model of the transport.
pub struct TransportView {
    pub playing: bool,
    pub paused: bool,
    /// Whether a source node has ever been started (it is never released).
    pub has_source: bool,
}

impl TransportView {
    /// The state of a freshly created player.
    pub open spec fn stopped() -> TransportView {
        TransportView { playing: false, paused: false, has_source: false }
    }

    /// The invariant that every reachable state satisfies.
    pub open spec fn wf(self) -> bool {
        &&& self.playing ==> self.has_source
        &&& self.paused ==> self.has_source
        &&& !(self.playing && self.paused)
    }

    /// The outside work that `cmd` asks for in this state.
    pub open spec fn plan(self, cmd: TransportCommand) -> TransportAction {
        match cmd {
            TransportCommand::Play => if self.playing {
                TransportAction::Nothing
            } else {
                TransportAction::Start { from_pause: self.paused }
            },
            TransportCommand::Pause => if self.playing && self.has_source {
                TransportAction::StopAndRemember
            } else {
                TransportAction::Nothing
            },
            TransportCommand::Reset => if self.has_source {
                TransportAction::StopAndRewind
            } else {
                TransportAction::Nothing
            },
            TransportCommand::ReloadAndPlay => TransportAction::Restart {
                stop_current: self.has_source,
            },
        }
    }

    /// The state once the work planned for `cmd` has succeeded.
    pub open spec fn after(self, cmd: TransportCommand) -> TransportView {
        match self.plan(cmd) {
            TransportAction::Nothing => self,
            TransportAction::Start { .. } => TransportView {
                playing: true,
                paused: false,
                has_source: true,
            },
            TransportAction::StopAndRemember => TransportView {
                playing: false,
                paused: true,
                has_source: true,
            },
            TransportAction::StopAndRewind => TransportView {
                playing: false,
                paused: false,
                has_source: true,
            },
            TransportAction::Restart { .. } => TransportView { has_source: true, ..self },
        }
    }
}

/// The play / pause / reset state of the player.
pub struct Transport {
    is_playing: bool,
    is_paused: bool,
    has_source: bool,
}

impl View for Transport {
    type V = TransportView;

    closed spec fn view(&self) -> TransportView {
        TransportView {
            playing: self.is_playing,
            paused: self.is_paused,
            has_source: self.has_source,
        }
    }
}

impl Transport {
    /// Every transport value satisfies the invariant of its model.
    #[verifier::type_invariant]
    spec fn inv(self) -> bool {
        &&& self.is_playing ==> self.has_source
        &&& self.is_paused ==> self.has_source
        &&& !(self.is_playing && self.is_paused)
    }

    /// A player that has never played.
    pub fn new() -> (t: Transport)
        ensures
            t@ == TransportView::stopped(),
            t@.wf(),
    {
        Transport { is_playing: false, is_paused: false, has_source: false }
    }

    pub fn is_playing(&self) -> (b: bool)
        ensures
            b == self@.playing,
    {
        self.is_playing
    }

    pub fn is_paused(&self) -> (b: bool)
        ensures
            b == self@.paused,
    {
        self.is_paused
    }

    pub fn has_source(&self) -> (b: bool)
        ensures
            b == self@.has_source,
    {
        self.has_source
    }

    /// Decides what outside work `cmd` needs. The current state always
    /// satisfies the invariant.
    pub fn plan(&self, cmd: TransportCommand) -> (a: TransportAction)
        ensures
            a == self@.plan(cmd),
            self@.wf(),
    {
        proof {
            use_type_invariant(self);
        }
        match cmd {
            TransportCommand::Play => if self.is_playing {
                TransportAction::Nothing
            } else {
                TransportAction::Start { from_pause: self.is_paused }
            },
            TransportCommand::Pause => if self.is_playing && self.has_source {
                TransportAction::StopAndRemember
            } else {
                TransportAction::Nothing
            },
            TransportCommand::Reset => if self.has_source {
                TransportAction::StopAndRewind
            } else {
                TransportAction::Nothing
            },
            TransportCommand::ReloadAndPlay => TransportAction::Restart {
                stop_current: self.has_source,
            },
        }
    }

    /// Records that the work planned for `cmd` has succeeded. The invariant
    /// holds before and after.
    pub fn commit(&mut self, cmd: TransportCommand)
        ensures
            final(self)@ == old(self)@.after(cmd),
            old(self)@.wf(),
            final(self)@.wf(),
    {
        proof {
            use_type_invariant(&*self);
        }
        match self.plan(cmd) {
            TransportAction::Nothing => {},
            TransportAction::Start { .. } => {
                *self = Transport { is_playing: true, is_paused: false, has_source: true };
            },
            TransportAction::StopAndRemember => {
                *self = Transport { is_playing: false, is_paused: true, has_source: true };
            },
            TransportAction::StopAndRewind => {
                *self = Transport { is_playing: false, is_paused: false, has_source: true };
            },
            TransportAction::Restart { .. } => {
                *self = Transport {
                    is_playing: self.is_playing,
                    is_paused: self.is_paused,
                    has_source: true,
                };
            },
        }
        proof {
            use_type_invariant(&*self);
        }
    }
}

/// Every command keeps the transport invariant: playing and paused are
/// never both set, and either one implies that a source exists.
pub proof fn lemma_commands_keep_invariant(v: TransportView, cmd: TransportCommand)
    requires
        v.wf(),
    ensures
        v.after(cmd).wf(),
{
}

/// A command that needs no outside work leaves the state unchanged.
pub proof fn lemma_nothing_changes_nothing(v: TransportView, cmd: TransportCommand)
    requires
        v.plan(cmd) == TransportAction::Nothing,
    ensures
        v.after(cmd) == v,
{
}

/// Play is idempotent: once playing, a second play needs no work and
/// changes nothing.
pub proof fn lemma_play_idempotent(v: TransportView)
    ensures
        v.after(TransportCommand::Play).playing,
        v.after(TransportCommand::Play).plan(TransportCommand::Play) == TransportAction::Nothing,
        v.after(TransportCommand::Play).after(TransportCommand::Play) == v.after(
            TransportCommand::Play,
        ),
{
}

/// Pausing a playing song stops it, and the next play resumes from the
/// remembered position.
pub proof fn lemma_pause_then_resume(v: TransportView)
    requires
        v.wf(),
    ensures
        v.after(TransportCommand::Play).plan(TransportCommand::Pause)
            == TransportAction::StopAndRemember,
        v.after(TransportCommand::Play).after(TransportCommand::Pause) == (TransportView {
            playing: false,
            paused: true,
            has_source: true,
        }),
        v.after(TransportCommand::Play).after(TransportCommand::Pause).plan(
            TransportCommand::Play,
        ) == (TransportAction::Start { from_pause: true }),
{
}

/// Pausing a song that is not playing does nothing.
pub proof fn lemma_pause_when_stopped(v: TransportView)
    requires
        !v.playing,
    ensures
        v.plan(TransportCommand::Pause) == TransportAction::Nothing,
        v.after(TransportCommand::Pause) == v,
{
}

/// After a reset the song is neither playing nor paused, and the next play
/// starts from the beginning.
pub proof fn lemma_reset_rewinds(v: TransportView)
    requires
        v.wf(),
    ensures
        !v.after(TransportCommand::Reset).playing,
        !v.after(TransportCommand::Reset).paused,
        v.after(TransportCommand::Reset).plan(TransportCommand::Play) == (TransportAction::Start {
            from_pause: false,
        }),
{
}

/// Reloading restarts the audio but keeps the playing and paused flags.
pub proof fn lemma_reload_keeps_flags(v: TransportView)
    ensures
        v.after(TransportCommand::ReloadAndPlay).playing == v.playing,
        v.after(TransportCommand::ReloadAndPlay).paused == v.paused,
        v.after(TransportCommand::ReloadAndPlay).has_source,
{
}

/// The decision for each command, stated over the state: play starts a
/// stopped song (resuming when paused) and does nothing while playing; pause
/// stops a playing song that has a source; reset stops and rewinds whenever a
/// source has been started; reload always restarts, stopping the current
/// source exactly when one has been started.
pub proof fn lemma_decisions(v: TransportView)
    ensures
        v.playing ==> v.plan(TransportCommand::Play) == TransportAction::Nothing,
        !v.playing ==> v.plan(TransportCommand::Play) == (TransportAction::Start {
            from_pause: v.paused,
        }),
        v.playing && v.has_source ==> v.plan(TransportCommand::Pause)
            == TransportAction::StopAndRemember,
        v.has_source ==> v.plan(TransportCommand::Reset) == TransportAction::StopAndRewind,
        !v.has_source ==> v.plan(TransportCommand::Reset) == TransportAction::Nothing,
        v.has_source ==> v.plan(TransportCommand::ReloadAndPlay) == (TransportAction::Restart {
            stop_current: true,
        }),
        !v.has_source ==> v.plan(TransportCommand::ReloadAndPlay) == (TransportAction::Restart {
            stop_current: false,
        }),
{
}

/// Once any command has started a source, a later reload stops it before
/// the re-rendered song starts, and a later reset stops it and rewinds.
pub proof fn lemma_started_source_is_stopped(v: TransportView, cmd: TransportCommand)
    requires
        v.wf(),
        cmd == TransportCommand::Play || cmd == TransportCommand::ReloadAndPlay,
    ensures
        v.after(cmd).has_source,
        v.after(cmd).plan(TransportCommand::ReloadAndPlay) == (TransportAction::Restart {
            stop_current: true,
        }),
        v.after(cmd).plan(TransportCommand::Reset) == TransportAction::StopAndRewind,
{
}

} // verus!
