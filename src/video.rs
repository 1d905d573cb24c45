//! The video session: decisions on operator requests and runtime events.
//!
//! The session decides; the caller performs the returned actions on the
//! native runtime and reports back what happened as further inputs.

use vstd::prelude::*;

verus! {

#[derive(PartialEq, Eq, Structural, Clone, Copy, Debug)]
pub enum Phase {
    Idle,
    Starting,
    Running,
    /// End-of-stream markers are draining; the graph stops when they are out
    /// or when the unresponsive timeout fires, whichever comes first.
    Stopping,
}

#[derive(PartialEq, Eq, Structural, Clone, Copy, Debug)]
pub enum Recording {
    Off,
    Attaching,
    On,
    Draining,
}

/// What went wrong, for the operator.
#[derive(PartialEq, Eq, Structural, Clone, Copy, Debug)]
pub enum VideoFault {
    /// The graph could not be built.
    Build,
    /// The graph was built but would not start.
    Start,
    /// The recording branch could not be attached.
    Record,
}

/// What the operator is told.
#[derive(PartialEq, Eq, Structural, Clone, Copy, Debug)]
pub enum SlaveVideoOutput {
    PollingChanged(bool),
    RecordingChanged(bool),
    ErrorMessage(VideoFault),
    /// The graph did not drain in time and was stopped by force.
    ForcedStop,
}

/// Operator requests, and reports of the work the session asked for.
#[derive(PartialEq, Eq, Structural, Clone, Copy, Debug)]
pub enum SlaveVideoInput {
    StartPipeline,
    Started,
    StartFailed(VideoFault),
    StopPipeline,
    /// Everything that was draining has drained.
    Drained,
    /// The unresponsive timeout fired.
    Timeout,
    /// A decoded frame arrived.
    Frame,
    StartRecord,
    RecordStarted,
    RecordFailed,
    StopRecord,
    RecordDrained,
}

/// Work for the caller to do on the runtime.
#[derive(PartialEq, Eq, Structural, Clone, Copy, Debug)]
pub enum VideoAction {
    /// Build the graph and set it playing; report `Started` or `StartFailed`.
    Build,
    /// Hand the frame to the display.
    ShowFrame,
    /// Attach the recording branch; report `RecordStarted` or `RecordFailed`.
    AttachRecord,
    /// Start detaching the recording branch.
    DetachRecord,
    /// Free the drained recording branch.
    ReleaseRecord,
    /// Push end-of-stream into the graph.
    SendEos,
    /// Schedule the unresponsive timeout.
    ArmTimeout,
    /// Set the whole graph to `Null` and drop it.
    SetNull,
}

#[derive(PartialEq, Eq, Structural, Clone, Copy, Debug)]
pub struct SlaveVideoModel {
    phase: Phase,
    recording: Recording,
    showing: bool,
}

#[derive(PartialEq, Eq, Structural, Clone, Copy, Debug)]
pub struct SessionView {
    pub phase: Phase,
    pub recording: Recording,
    /// A frame has been shown since the graph started.
    pub showing: bool,
}

impl View for SlaveVideoModel {
    type V = SessionView;

    closed spec fn view(&self) -> SessionView {
        SessionView { phase: self.phase, recording: self.recording, showing: self.showing }
    }
}

/// Inputs that are logic errors in a state: starting twice, stopping what
/// does not run.
pub open spec fn accepts(s: SessionView, i: SlaveVideoInput) -> bool {
    match i {
        SlaveVideoInput::StartPipeline => s.phase == Phase::Idle,
        SlaveVideoInput::StopPipeline => s.phase == Phase::Running,
        _ => true,
    }
}

pub open spec fn stopped(s: SessionView) -> SessionView {
    SessionView { phase: Phase::Idle, recording: Recording::Off, showing: false }
}

pub open spec fn recording_off(s: SessionView) -> Seq<SlaveVideoOutput> {
    if s.recording != Recording::Off {
        seq![SlaveVideoOutput::RecordingChanged(false)]
    } else {
        seq![]
    }
}

/// The session's transitions: the next state, what the operator is told, and
/// the work for the caller, in order.
pub open spec fn step(s: SessionView, i: SlaveVideoInput) -> (SessionView, Seq<SlaveVideoOutput>, Seq<VideoAction>) {
    match i {
        SlaveVideoInput::StartPipeline => (SessionView { phase: Phase::Starting, ..s }, seq![], seq![VideoAction::Build]),
        SlaveVideoInput::Started => if s.phase == Phase::Starting {
            (SessionView { phase: Phase::Running, showing: false, ..s }, seq![SlaveVideoOutput::PollingChanged(true)], seq![])
        } else {
            (s, seq![], seq![])
        },
        SlaveVideoInput::StartFailed(f) => if s.phase == Phase::Starting {
            (
                stopped(s),
                seq![SlaveVideoOutput::ErrorMessage(f), SlaveVideoOutput::PollingChanged(false)],
                seq![],
            )
        } else {
            (s, seq![], seq![])
        },
        SlaveVideoInput::StopPipeline => if s.recording == Recording::On {
            (
                SessionView { phase: Phase::Stopping, recording: Recording::Draining, ..s },
                seq![],
                seq![VideoAction::DetachRecord, VideoAction::SendEos, VideoAction::ArmTimeout],
            )
        } else {
            (SessionView { phase: Phase::Stopping, ..s }, seq![], seq![VideoAction::SendEos, VideoAction::ArmTimeout])
        },
        SlaveVideoInput::Drained => if s.phase == Phase::Stopping {
            (
                stopped(s),
                seq![SlaveVideoOutput::PollingChanged(false)] + recording_off(s),
                if s.recording != Recording::Off {
                    seq![VideoAction::ReleaseRecord, VideoAction::SetNull]
                } else {
                    seq![VideoAction::SetNull]
                },
            )
        } else {
            (s, seq![], seq![])
        },
        SlaveVideoInput::Timeout => if s.phase == Phase::Stopping {
            (
                stopped(s),
                seq![SlaveVideoOutput::PollingChanged(false)] + recording_off(s) + seq![SlaveVideoOutput::ForcedStop],
                seq![VideoAction::SetNull],
            )
        } else {
            (s, seq![], seq![])
        },
        SlaveVideoInput::Frame => if s.phase == Phase::Running {
            (
                SessionView { showing: true, ..s },
                if s.showing {
                    seq![]
                } else {
                    seq![SlaveVideoOutput::PollingChanged(true)]
                },
                seq![VideoAction::ShowFrame],
            )
        } else {
            (s, seq![], seq![])
        },
        SlaveVideoInput::StartRecord => if s.phase == Phase::Running && s.recording == Recording::Off {
            (SessionView { recording: Recording::Attaching, ..s }, seq![], seq![VideoAction::AttachRecord])
        } else {
            (s, seq![], seq![])
        },
        SlaveVideoInput::RecordStarted => if s.recording == Recording::Attaching {
            (SessionView { recording: Recording::On, ..s }, seq![SlaveVideoOutput::RecordingChanged(true)], seq![])
        } else {
            (s, seq![], seq![])
        },
        SlaveVideoInput::RecordFailed => if s.recording == Recording::Attaching {
            (
                SessionView { recording: Recording::Off, ..s },
                seq![SlaveVideoOutput::ErrorMessage(VideoFault::Record), SlaveVideoOutput::RecordingChanged(false)],
                seq![],
            )
        } else {
            (s, seq![], seq![])
        },
        SlaveVideoInput::StopRecord => if s.phase == Phase::Running && s.recording == Recording::On {
            (SessionView { recording: Recording::Draining, ..s }, seq![], seq![VideoAction::DetachRecord])
        } else {
            (s, seq![], seq![])
        },
        SlaveVideoInput::RecordDrained => if s.phase == Phase::Running && s.recording == Recording::Draining {
            (
                SessionView { recording: Recording::Off, ..s },
                seq![SlaveVideoOutput::RecordingChanged(false)],
                seq![VideoAction::ReleaseRecord],
            )
        } else {
            (s, seq![], seq![])
        },
    }
}

impl SlaveVideoModel {
    pub fn new() -> (r: SlaveVideoModel)
        ensures
            r@ == (SessionView { phase: Phase::Idle, recording: Recording::Off, showing: false }),
    {
        SlaveVideoModel { phase: Phase::Idle, recording: Recording::Off, showing: false }
    }

    /// A graph exists: starting, running or stopping.
    pub fn is_running(&self) -> (r: bool)
        ensures
            r == (self@.phase != Phase::Idle),
    {
        self.phase != Phase::Idle
    }

    /// A recording branch is attached or being attached or detached.
    pub fn is_recording(&self) -> (r: bool)
        ensures
            r == (self@.recording != Recording::Off),
    {
        self.recording != Recording::Off
    }

    pub fn phase(&self) -> (r: Phase)
        ensures
            r == self@.phase,
    {
        self.phase
    }

    fn stop_outputs(&self, outs: &mut Vec<SlaveVideoOutput>)
        ensures
            final(outs)@ == old(outs)@ + seq![SlaveVideoOutput::PollingChanged(false)] + recording_off(self@),
    {
        outs.push(SlaveVideoOutput::PollingChanged(false));
        if self.recording != Recording::Off {
            outs.push(SlaveVideoOutput::RecordingChanged(false));
        }
        assert(final(outs)@ =~= old(outs)@ + seq![SlaveVideoOutput::PollingChanged(false)] + recording_off(self@));
    }

    /// Takes one input; returns what the operator is told and the work for the
    /// caller, both in order.
    pub fn update(&mut self, input: SlaveVideoInput) -> (r: (Vec<SlaveVideoOutput>, Vec<VideoAction>))
        requires
            accepts(old(self)@, input),
        ensures
            (final(self)@, r.0@, r.1@) == step(old(self)@, input),
    {
        let mut outs: Vec<SlaveVideoOutput> = Vec::new();
        let mut acts: Vec<VideoAction> = Vec::new();
        match input {
            SlaveVideoInput::StartPipeline => {
                self.phase = Phase::Starting;
                acts.push(VideoAction::Build);
            },
            SlaveVideoInput::Started => {
                if self.phase == Phase::Starting {
                    self.phase = Phase::Running;
                    self.showing = false;
                    outs.push(SlaveVideoOutput::PollingChanged(true));
                }
            },
            SlaveVideoInput::StartFailed(f) => {
                if self.phase == Phase::Starting {
                    outs.push(SlaveVideoOutput::ErrorMessage(f));
                    outs.push(SlaveVideoOutput::PollingChanged(false));
                    *self = SlaveVideoModel { phase: Phase::Idle, recording: Recording::Off, showing: false };
                }
            },
            SlaveVideoInput::StopPipeline => {
                if self.recording == Recording::On {
                    self.recording = Recording::Draining;
                    acts.push(VideoAction::DetachRecord);
                }
                self.phase = Phase::Stopping;
                acts.push(VideoAction::SendEos);
                acts.push(VideoAction::ArmTimeout);
            },
            SlaveVideoInput::Drained => {
                if self.phase == Phase::Stopping {
                    self.stop_outputs(&mut outs);
                    if self.recording != Recording::Off {
                        acts.push(VideoAction::ReleaseRecord);
                    }
                    acts.push(VideoAction::SetNull);
                    *self = SlaveVideoModel { phase: Phase::Idle, recording: Recording::Off, showing: false };
                }
            },
            SlaveVideoInput::Timeout => {
                if self.phase == Phase::Stopping {
                    self.stop_outputs(&mut outs);
                    outs.push(SlaveVideoOutput::ForcedStop);
                    acts.push(VideoAction::SetNull);
                    *self = SlaveVideoModel { phase: Phase::Idle, recording: Recording::Off, showing: false };
                }
            },
            SlaveVideoInput::Frame => {
                if self.phase == Phase::Running {
                    if !self.showing {
                        outs.push(SlaveVideoOutput::PollingChanged(true));
                    }
                    self.showing = true;
                    acts.push(VideoAction::ShowFrame);
                }
            },
            SlaveVideoInput::StartRecord => {
                if self.phase == Phase::Running && self.recording == Recording::Off {
                    self.recording = Recording::Attaching;
                    acts.push(VideoAction::AttachRecord);
                }
            },
            SlaveVideoInput::RecordStarted => {
                if self.recording == Recording::Attaching {
                    self.recording = Recording::On;
                    outs.push(SlaveVideoOutput::RecordingChanged(true));
                }
            },
            SlaveVideoInput::RecordFailed => {
                if self.recording == Recording::Attaching {
                    self.recording = Recording::Off;
                    outs.push(SlaveVideoOutput::ErrorMessage(VideoFault::Record));
                    outs.push(SlaveVideoOutput::RecordingChanged(false));
                }
            },
            SlaveVideoInput::StopRecord => {
                if self.phase == Phase::Running && self.recording == Recording::On {
                    self.recording = Recording::Draining;
                    acts.push(VideoAction::DetachRecord);
                }
            },
            SlaveVideoInput::RecordDrained => {
                if self.phase == Phase::Running && self.recording == Recording::Draining {
                    self.recording = Recording::Off;
                    outs.push(SlaveVideoOutput::RecordingChanged(false));
                    acts.push(VideoAction::ReleaseRecord);
                }
            },
        }
        assert(outs@ =~= step(old(self)@, input).1);
        assert(acts@ =~= step(old(self)@, input).2);
        (outs, acts)
    }
}

/// Once stopped, the session shows no further frames until it is started
/// again, and a stop always ends, by draining or by the timeout, in the idle
/// state with polling reported off.
pub proof fn lemma_stop_ends_frames(s: SessionView)
    requires
        s.phase == Phase::Stopping || s.phase == Phase::Idle,
    ensures
        step(s, SlaveVideoInput::Frame).2.len() == 0,
        s.phase == Phase::Stopping ==> step(s, SlaveVideoInput::Timeout).0.phase == Phase::Idle
            && step(s, SlaveVideoInput::Timeout).1[0] == SlaveVideoOutput::PollingChanged(false),
        s.phase == Phase::Stopping ==> step(s, SlaveVideoInput::Drained).0.phase == Phase::Idle
            && step(s, SlaveVideoInput::Drained).1[0] == SlaveVideoOutput::PollingChanged(false),
{
}

} // verus!
