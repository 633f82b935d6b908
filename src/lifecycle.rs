//! The lifecycle of a run: the ordered construction of the skeleton graph,
//! the request to play, and the consumption of engine events until the end
//! of the stream or a fatal error.
use vstd::prelude::*;
use crate::error::RunError;
use crate::media::ElementType;

verus! {

/// The number of steps that build the skeleton and start it.
pub const SETUP_STEPS: usize = 13;

/// The run states of the graph.
#[derive(Clone, Copy, Debug, PartialEq, Eq, Structural)]
pub enum RunState {
    Null,
    Ready,
    Paused,
    Playing,
}

/// One step of building and starting the skeleton, performed on the engine.
#[derive(Clone, Copy, Debug, PartialEq, Eq, Structural)]
pub enum SetupStep {
    /// Instantiate a skeleton node.
    Make(ElementType),
    /// Derive the output file name from the input path.
    NameOutput,
    /// Give the source its input location and the sink its output location.
    SetLocations,
    /// Load the overlay image.
    LoadOverlay,
    /// Hand the image to the overlay node.
    SetOverlay,
    /// Apply the encoding profile to the encoder/muxer.
    ApplyProfile,
    /// Add source, encoder/muxer and sink to the graph.
    AddSkeleton,
    /// Link the encoder/muxer to the sink.
    LinkEncoderToSink,
    /// Register the router on the source's new-output notification.
    ConnectRouter,
    /// Ask the engine to bring the graph to Playing.
    RequestPlaying,
}

/// The `i`-th setup step.
pub open spec fn setup_step_at(i: int) -> SetupStep {
    if i == 0 {
        SetupStep::Make(ElementType::UriDecodeBin)
    } else if i == 1 {
        SetupStep::Make(ElementType::EncodeBin)
    } else if i == 2 {
        SetupStep::Make(ElementType::FileSink)
    } else if i == 3 {
        SetupStep::Make(ElementType::PixbufOverlay)
    } else if i == 4 {
        SetupStep::NameOutput
    } else if i == 5 {
        SetupStep::SetLocations
    } else if i == 6 {
        SetupStep::LoadOverlay
    } else if i == 7 {
        SetupStep::SetOverlay
    } else if i == 8 {
        SetupStep::ApplyProfile
    } else if i == 9 {
        SetupStep::AddSkeleton
    } else if i == 10 {
        SetupStep::LinkEncoderToSink
    } else if i == 11 {
        SetupStep::ConnectRouter
    } else {
        SetupStep::RequestPlaying
    }
}

/// The error that a failed setup step reports.
pub open spec fn setup_failure_of(s: SetupStep) -> RunError {
    match s {
        SetupStep::Make(t) => RunError::UnavailableElement(t),
        SetupStep::NameOutput => RunError::NoFileName,
        SetupStep::SetLocations => RunError::PropertyRejected,
        SetupStep::LoadOverlay => RunError::OverlayUnreadable,
        SetupStep::SetOverlay => RunError::PropertyRejected,
        SetupStep::ApplyProfile => RunError::ProfileBuildFailed,
        SetupStep::AddSkeleton => RunError::LinkFailed,
        SetupStep::LinkEncoderToSink => RunError::LinkFailed,
        SetupStep::ConnectRouter => RunError::LinkFailed,
        SetupStep::RequestPlaying => RunError::EngineStateRejected,
    }
}

/// The error that a failed setup step reports.
pub fn setup_failure(s: SetupStep) -> (r: RunError)
    ensures
        r == setup_failure_of(s),
{
    match s {
        SetupStep::Make(t) => RunError::UnavailableElement(t),
        SetupStep::NameOutput => RunError::NoFileName,
        SetupStep::SetLocations => RunError::PropertyRejected,
        SetupStep::LoadOverlay => RunError::OverlayUnreadable,
        SetupStep::SetOverlay => RunError::PropertyRejected,
        SetupStep::ApplyProfile => RunError::ProfileBuildFailed,
        SetupStep::AddSkeleton => RunError::LinkFailed,
        SetupStep::LinkEncoderToSink => RunError::LinkFailed,
        SetupStep::ConnectRouter => RunError::LinkFailed,
        SetupStep::RequestPlaying => RunError::EngineStateRejected,
    }
}

/// An event read from the engine's event stream.
#[derive(Debug)]
pub enum BusEvent {
    /// The end of the stream: the normal end of a run.
    Eos,
    /// A fatal error, with the path of the node that raised it.
    Error { source: String, message: String },
    /// A node changed run state; informational only.
    StateChanged { old: RunState, current: RunState },
    /// Anything else; observed and ignored.
    Other,
}

/// What the driver does after an event.
#[derive(Clone, Copy, Debug, PartialEq, Eq, Structural)]
pub enum DriverAction {
    /// Wait for the next event.
    WaitNext,
    /// Bring the graph to Null and return; a refusal there is tolerated.
    Stop,
}

/// Where a run stands.
#[derive(Debug)]
pub enum Lifecycle {
    /// This many setup steps have succeeded; the graph has not been asked to play.
    Setup(usize),
    /// The graph was asked to play and no terminal event has come.
    Running,
    /// The run is over, with its result.
    Finished(Result<(), RunError>),
}

/// The run state of the graph in each phase of a run.
pub open spec fn run_state_of(l: Lifecycle) -> RunState {
    match l {
        Lifecycle::Setup(n) => if n + 1 >= SETUP_STEPS {
            RunState::Ready
        } else {
            RunState::Null
        },
        Lifecycle::Running => RunState::Playing,
        Lifecycle::Finished(_) => RunState::Null,
    }
}

impl Lifecycle {
    pub open spec fn wf(&self) -> bool {
        self matches Lifecycle::Setup(n) ==> n < SETUP_STEPS
    }

    /// A run with nothing built.
    pub fn new() -> (r: Lifecycle)
        ensures
            r == Lifecycle::Setup(0),
            run_state_of(r) == RunState::Null,
    {
        Lifecycle::Setup(0)
    }

    /// The run state the graph is in.
    pub fn run_state(&self) -> (r: RunState)
        requires
            self.wf(),
        ensures
            r == run_state_of(*self),
    {
        match self {
            Lifecycle::Setup(n) => if *n + 1 >= SETUP_STEPS {
                RunState::Ready
            } else {
                RunState::Null
            },
            Lifecycle::Running => RunState::Playing,
            Lifecycle::Finished(_) => RunState::Null,
        }
    }

    /// Whether the run is over.
    pub fn is_finished(&self) -> (r: bool)
        ensures
            r == (*self is Finished),
    {
        match self {
            Lifecycle::Finished(_) => true,
            _ => false,
        }
    }

    /// The setup step to perform next, while the skeleton is being built.
    pub fn next_setup_step(&self) -> (r: Option<SetupStep>)
        requires
            self.wf(),
        ensures
            *self matches Lifecycle::Setup(n) ==> r == Some(setup_step_at(n as int)),
            !(*self is Setup) ==> r is None,
    {
        match self {
            Lifecycle::Setup(n) => {
                let n = *n;
                let s = if n == 0 {
                    SetupStep::Make(ElementType::UriDecodeBin)
                } else if n == 1 {
                    SetupStep::Make(ElementType::EncodeBin)
                } else if n == 2 {
                    SetupStep::Make(ElementType::FileSink)
                } else if n == 3 {
                    SetupStep::Make(ElementType::PixbufOverlay)
                } else if n == 4 {
                    SetupStep::NameOutput
                } else if n == 5 {
                    SetupStep::SetLocations
                } else if n == 6 {
                    SetupStep::LoadOverlay
                } else if n == 7 {
                    SetupStep::SetOverlay
                } else if n == 8 {
                    SetupStep::ApplyProfile
                } else if n == 9 {
                    SetupStep::AddSkeleton
                } else if n == 10 {
                    SetupStep::LinkEncoderToSink
                } else if n == 11 {
                    SetupStep::ConnectRouter
                } else {
                    SetupStep::RequestPlaying
                };
                Some(s)
            },
            _ => None,
        }
    }

    /// Records whether the setup step just performed succeeded. After the
    /// last one, the play request, the run is running; a failure ends the run
    /// at once with that step's error.
    pub fn report_setup(&mut self, ok: bool)
        requires
            old(self).wf(),
            *old(self) is Setup,
        ensures
            final(self).wf(),
            ok ==> *final(self) == if old(self)->Setup_0 + 1 == SETUP_STEPS {
                Lifecycle::Running
            } else {
                Lifecycle::Setup((old(self)->Setup_0 + 1) as usize)
            },
            !ok ==> *final(self) == Lifecycle::Finished(
                Err(setup_failure_of(setup_step_at(old(self)->Setup_0 as int))),
            ),
    {
        let step = self.next_setup_step();
        let n = match self {
            Lifecycle::Setup(n) => *n,
            _ => 0,
        };
        if ok {
            if n + 1 == SETUP_STEPS {
                *self = Lifecycle::Running;
            } else {
                *self = Lifecycle::Setup(n + 1);
            }
        } else {
            match step {
                Some(s) => {
                    *self = Lifecycle::Finished(Err(setup_failure(s)));
                },
                None => {},
            }
        }
    }

    /// Consumes one engine event while running. The end of the stream ends
    /// the run with success; an error ends it with that error; every other
    /// event leaves it running.
    pub fn on_event(&mut self, ev: BusEvent) -> (r: DriverAction)
        requires
            *old(self) is Running,
        ensures
            ev is Eos ==> *final(self) == Lifecycle::Finished(Ok(())) && r == DriverAction::Stop,
            ev matches BusEvent::Error { source, message } ==> *final(self) == Lifecycle::Finished(
                Err(RunError::EngineFatal { source, message }),
            ) && r == DriverAction::Stop,
            (ev is StateChanged || ev is Other) ==> *final(self) == Lifecycle::Running && r
                == DriverAction::WaitNext,
    {
        match ev {
            BusEvent::Eos => {
                *self = Lifecycle::Finished(Ok(()));
                DriverAction::Stop
            },
            BusEvent::Error { source, message } => {
                *self = Lifecycle::Finished(Err(RunError::EngineFatal { source, message }));
                DriverAction::Stop
            },
            _ => DriverAction::WaitNext,
        }
    }

    /// The result of a finished run.
    pub fn result(self) -> (r: Option<Result<(), RunError>>)
        ensures
            self matches Lifecycle::Finished(res) ==> r == Some(res),
            !(self is Finished) ==> r is None,
    {
        match self {
            Lifecycle::Finished(res) => Some(res),
            _ => None,
        }
    }
}

/// The play request is the last setup step, so a run whose setup fails at
/// any step, the loading of the overlay image among them, ends before the
/// graph is asked to play: it never runs, and the sink never opens its output.
pub proof fn lemma_setup_failure_never_plays(n: usize)
    requires
        n < SETUP_STEPS,
    ensures
        setup_step_at(6) == SetupStep::LoadOverlay,
        setup_failure_of(SetupStep::LoadOverlay) == RunError::OverlayUnreadable,
        setup_step_at(n as int) == SetupStep::RequestPlaying <==> n + 1 == SETUP_STEPS,
        run_state_of(
            Lifecycle::Finished(Err(setup_failure_of(setup_step_at(n as int)))),
        ) == RunState::Null,
{
}

} // verus!
