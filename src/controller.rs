use vstd::prelude::*;
use crate::command::RecordingCommand;

verus! {

/// What the controller asks its owner to do in answer to a command.
#[derive(Clone, Copy, Debug, PartialEq, Eq, Structural)]
pub enum Directive {
    /// Acquire the audio device and start a stream; report the outcome.
    AcquireDevice,
    /// Stop the stream, drain the buffer and write the container file.
    Finalize,
    /// A `Start` while recording: nothing happens.
    IgnoreStart,
    /// A `Stop` while idle: nothing happens.
    IgnoreStop,
}

/// The two states of the recording controller. A session exists exactly
/// when the state is `Recording`, so a recording without a session cannot
/// be represented.
pub enum RecorderState<S> {
    Idle,
    Recording(S),
}

/// The directive for a command, given whether a session is active.
pub open spec fn directive_for(recording: bool, cmd: RecordingCommand) -> Directive {
    match cmd {
        RecordingCommand::Start => if recording {
            Directive::IgnoreStart
        } else {
            Directive::AcquireDevice
        },
        RecordingCommand::Stop => if recording {
            Directive::Finalize
        } else {
            Directive::IgnoreStop
        },
    }
}

/// Whether a session is active after a command, given whether one was
/// active before and, for an acquisition, whether it succeeded.
pub open spec fn recording_after(recording: bool, cmd: RecordingCommand, acquired: bool) -> bool {
    match directive_for(recording, cmd) {
        Directive::AcquireDevice => acquired,
        Directive::Finalize => false,
        Directive::IgnoreStart => true,
        Directive::IgnoreStop => false,
    }
}

/// Whether a session is active after a run of commands from idle, where
/// `acquired[i]` is the outcome of the acquisition that command `i` would ask for.
pub open spec fn recording_after_run(cmds: Seq<RecordingCommand>, acquired: Seq<bool>) -> bool
    decreases cmds.len(),
{
    if cmds.len() == 0 {
        false
    } else {
        let n = (cmds.len() - 1) as int;
        recording_after(
            recording_after_run(cmds.take(n), acquired),
            cmds[n],
            acquired[n],
        )
    }
}

/// The directive issued for command `i` of a run from idle.
pub open spec fn directive_at(cmds: Seq<RecordingCommand>, acquired: Seq<bool>, i: int) -> Directive {
    directive_for(recording_after_run(cmds.take(i), acquired), cmds[i])
}

/// The number of sessions opened by a run from idle: successful acquisitions.
pub open spec fn sessions_opened(cmds: Seq<RecordingCommand>, acquired: Seq<bool>) -> nat
    decreases cmds.len(),
{
    if cmds.len() == 0 {
        0
    } else {
        let n = (cmds.len() - 1) as int;
        let before = sessions_opened(cmds.take(n), acquired);
        if directive_at(cmds, acquired, n) == Directive::AcquireDevice && acquired[n] {
            before + 1
        } else {
            before
        }
    }
}

/// The number of finalize attempts made by a run from idle.
pub open spec fn finalize_count(cmds: Seq<RecordingCommand>, acquired: Seq<bool>) -> nat
    decreases cmds.len(),
{
    if cmds.len() == 0 {
        0
    } else {
        let n = (cmds.len() - 1) as int;
        let before = finalize_count(cmds.take(n), acquired);
        if directive_at(cmds, acquired, n) == Directive::Finalize {
            before + 1
        } else {
            before
        }
    }
}

proof fn lemma_take_take(cmds: Seq<RecordingCommand>, i: int)
    requires
        0 <= i <= cmds.len(),
    ensures
        cmds.take(i).take(i) == cmds.take(i),
{
    assert(cmds.take(i).take(i) =~= cmds.take(i));
}

/// At most one session at a time: over any run of commands from idle, with
/// any acquisition outcomes, the sessions opened exceed the finalize attempts
/// by exactly one while recording and are equal to them while idle; every
/// finalize closes an open session, and an acquisition is only attempted
/// while no session is open.
pub proof fn lemma_single_session(cmds: Seq<RecordingCommand>, acquired: Seq<bool>)
    requires
        acquired.len() >= cmds.len(),
    ensures
        sessions_opened(cmds, acquired) == finalize_count(cmds, acquired) + (if recording_after_run(
            cmds,
            acquired,
        ) {
            1nat
        } else {
            0nat
        }),
        forall|i: int|
            0 <= i < cmds.len() && #[trigger] directive_at(cmds, acquired, i)
                == Directive::AcquireDevice ==> sessions_opened(cmds.take(i), acquired)
                == finalize_count(cmds.take(i), acquired),
    decreases cmds.len(),
{
    if cmds.len() > 0 {
        let n = (cmds.len() - 1) as int;
        let pre = cmds.take(n);
        lemma_single_session(pre, acquired);
        lemma_take_take(cmds, n);
        assert forall|i: int|
            0 <= i < cmds.len() && #[trigger] directive_at(cmds, acquired, i)
                == Directive::AcquireDevice implies sessions_opened(cmds.take(i), acquired)
                == finalize_count(cmds.take(i), acquired) by {
            if i < n {
                assert(pre.take(i) =~= cmds.take(i));
                assert(pre[i] == cmds[i]);
                assert(directive_at(pre, acquired, i) == directive_at(cmds, acquired, i));
            }
        }
    }
}

/// A `Start` whose acquisition fails leaves the controller idle, and a later
/// `Start` asks for an acquisition again.
pub proof fn lemma_failed_start_stays_idle()
    ensures
        directive_for(false, RecordingCommand::Start) == Directive::AcquireDevice,
        !recording_after(false, RecordingCommand::Start, false),
        directive_for(
            recording_after(false, RecordingCommand::Start, false),
            RecordingCommand::Start,
        ) == Directive::AcquireDevice,
{
}

/// A `Stop` while idle asks for no finalize and leaves the controller idle.
pub proof fn lemma_stop_when_idle(acquired: bool)
    ensures
        directive_for(false, RecordingCommand::Stop) == Directive::IgnoreStop,
        !recording_after(false, RecordingCommand::Stop, acquired),
{
}

impl<S> RecorderState<S> {
    pub open spec fn recording(&self) -> bool {
        self is Recording
    }

    /// A controller in the idle state.
    pub fn new() -> (r: Self)
        ensures
            r is Idle,
    {
        RecorderState::Idle
    }

    pub fn is_recording(&self) -> (r: bool)
        ensures
            r == self.recording(),
    {
        match self {
            RecorderState::Idle => false,
            RecorderState::Recording(_) => true,
        }
    }

    /// What to do about a command. An ignored command leaves the state as it is.
    pub fn decide(&self, cmd: RecordingCommand) -> (r: Directive)
        ensures
            r == directive_for(self.recording(), cmd),
    {
        match (self, cmd) {
            (RecorderState::Idle, RecordingCommand::Start) => Directive::AcquireDevice,
            (RecorderState::Idle, RecordingCommand::Stop) => Directive::IgnoreStop,
            (RecorderState::Recording(_), RecordingCommand::Start) => Directive::IgnoreStart,
            (RecorderState::Recording(_), RecordingCommand::Stop) => Directive::Finalize,
        }
    }

    /// Records the outcome of an acquisition: a session makes the controller
    /// record; a failure leaves it idle. The failure is returned to the caller.
    pub fn acquired<E>(&mut self, outcome: Result<S, E>) -> (r: Option<E>)
        requires
            !old(self).recording(),
        ensures
            match outcome {
                Ok(s) => *final(self) == RecorderState::Recording(s) && r is None,
                Err(e) => !final(self).recording() && r == Some(e),
            },
    {
        match outcome {
            Ok(s) => {
                *self = RecorderState::Recording(s);
                None
            },
            Err(e) => Some(e),
        }
    }

    /// Ends the active session: the controller becomes idle and the session
    /// is handed to the caller to finalize.
    pub fn finish(&mut self) -> (r: S)
        requires
            old(self).recording(),
        ensures
            *old(self) == RecorderState::Recording(r),
            !final(self).recording(),
    {
        let mut state = RecorderState::Idle;
        std::mem::swap(self, &mut state);
        match state {
            RecorderState::Recording(s) => s,
            RecorderState::Idle => vstd::pervasive::unreached(),
        }
    }
}

} // verus!
