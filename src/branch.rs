//! Construction of one per-stream branch: the conversion chain of a media
//! kind, the order in which it is made and wired into the encoder/muxer, and
//! what becomes of the branch when a step fails.
use vstd::prelude::*;
use crate::error::RunError;
use crate::media::{ElementType, MediaKind};

verus! {

/// The number of steps that build one branch.
pub const BRANCH_STEPS: usize = 8;

/// One step of building a branch, performed on the engine.
#[derive(Clone, Copy, Debug, PartialEq, Eq, Structural)]
pub enum BranchAction {
    /// Instantiate one node of the chain.
    Make(ElementType),
    /// Add the chain's nodes to the graph and link them pairwise in order.
    AddAndLinkChain,
    /// Request an input port of the branch's kind on the encoder/muxer.
    RequestPort,
    /// Link the chain's last output to the granted port.
    LinkToEncoder,
    /// Bring each new node to the graph's current run state.
    SyncStates,
    /// Link the discovered source output to the chain's first input.
    LinkSource,
}

/// The normalization chain of a kind: buffering, format conversion, then
/// rate resampling (audio) or scaling (video).
pub open spec fn chain_spec(kind: MediaKind) -> Seq<ElementType> {
    match kind {
        MediaKind::Audio => seq![ElementType::Queue, ElementType::AudioConvert, ElementType::AudioResample],
        MediaKind::Video => seq![ElementType::Queue, ElementType::VideoConvert, ElementType::VideoScale],
        MediaKind::Unknown => Seq::empty(),
    }
}

/// The `i`-th step of building a branch of `kind`.
pub open spec fn action_at(kind: MediaKind, i: int) -> BranchAction {
    if i < 3 {
        BranchAction::Make(chain_spec(kind)[i])
    } else if i == 3 {
        BranchAction::AddAndLinkChain
    } else if i == 4 {
        BranchAction::RequestPort
    } else if i == 5 {
        BranchAction::LinkToEncoder
    } else if i == 6 {
        BranchAction::SyncStates
    } else {
        BranchAction::LinkSource
    }
}

/// The position of a step in the order of construction.
pub open spec fn step_index(a: BranchAction) -> int {
    match a {
        BranchAction::Make(t) => if t == ElementType::Queue { 0int } else if t == ElementType::AudioConvert
            || t == ElementType::VideoConvert { 1int } else { 2int },
        BranchAction::AddAndLinkChain => 3,
        BranchAction::RequestPort => 4,
        BranchAction::LinkToEncoder => 5,
        BranchAction::SyncStates => 6,
        BranchAction::LinkSource => 7,
    }
}

/// The error that a failed step reports.
pub open spec fn failure_of(a: BranchAction) -> RunError {
    match a {
        BranchAction::Make(t) => RunError::UnavailableElement(t),
        BranchAction::AddAndLinkChain => RunError::LinkFailed,
        BranchAction::RequestPort => RunError::PortRequestDenied,
        BranchAction::LinkToEncoder => RunError::LinkFailed,
        BranchAction::SyncStates => RunError::EngineStateRejected,
        BranchAction::LinkSource => RunError::LinkFailed,
    }
}

/// The engine-side link of a branch and the state synchronisation of its
/// nodes both come before the source-side link, which is the last step: data
/// can flow only once every earlier step has succeeded.
pub proof fn lemma_source_link_last(kind: MediaKind)
    requires
        kind != MediaKind::Unknown,
    ensures
        action_at(kind, 5) == BranchAction::LinkToEncoder,
        action_at(kind, 6) == BranchAction::SyncStates,
        action_at(kind, BRANCH_STEPS - 1) == BranchAction::LinkSource,
        forall|i: int| 0 <= i < BRANCH_STEPS - 1 ==> action_at(kind, i) != BranchAction::LinkSource,
        forall|i: int| 0 <= i < BRANCH_STEPS ==> step_index(#[trigger] action_at(kind, i)) == i,
{
}

/// The template of the encoder/muxer input port that a branch requests.
pub open spec fn pad_template_spec(kind: MediaKind) -> Seq<char> {
    match kind {
        MediaKind::Audio => "audio_%u"@,
        _ => "video_%u"@,
    }
}

/// Where a branch under construction stands.
#[derive(Clone, Copy, Debug, PartialEq, Eq, Structural)]
pub enum BranchStatus {
    Building,
    Complete,
    /// Given up at this step; the stream is dropped and no sibling is touched.
    Abandoned(BranchAction),
}

/// What became of one discovered source output.
#[derive(Clone, Copy, Debug, PartialEq, Eq, Structural)]
pub enum StreamOutcome {
    /// A complete branch of this kind feeds the encoder/muxer.
    Built(MediaKind),
    /// The branch of this kind was abandoned at this step.
    Abandoned(MediaKind, BranchAction),
    /// The stream's kind is neither audio nor video: no branch, no error.
    Ignored,
    /// The output offered no negotiated capabilities.
    Unnegotiated,
    /// The graph or its encoder/muxer was gone when the output appeared.
    Dropped,
}

/// The step-by-step construction of the branch for one discovered stream.
/// The engine work of each step is done by the caller, which reports back
/// whether it succeeded.
pub struct BranchBuilder {
    kind: MediaKind,
    done: usize,
    status: BranchStatus,
}

impl BranchBuilder {
    pub closed spec fn kind_spec(&self) -> MediaKind {
        self.kind
    }

    pub closed spec fn done_spec(&self) -> nat {
        self.done as nat
    }

    pub closed spec fn status_spec(&self) -> BranchStatus {
        self.status
    }

    pub closed spec fn wf(&self) -> bool {
        &&& self.kind != MediaKind::Unknown
        &&& self.done <= BRANCH_STEPS
        &&& (self.status == BranchStatus::Building ==> self.done < BRANCH_STEPS)
        &&& (self.status == BranchStatus::Complete ==> self.done == BRANCH_STEPS)
        &&& (self.status matches BranchStatus::Abandoned(a) ==> self.done < BRANCH_STEPS && a
            == action_at(self.kind, self.done as int))
    }

    /// A builder for a stream of an audio or video kind, with no step done.
    pub fn new(kind: MediaKind) -> (r: BranchBuilder)
        requires
            kind != MediaKind::Unknown,
        ensures
            r.wf(),
            r.kind_spec() == kind,
            r.done_spec() == 0,
            r.status_spec() == BranchStatus::Building,
    {
        BranchBuilder { kind, done: 0, status: BranchStatus::Building }
    }

    pub fn kind(&self) -> (r: MediaKind)
        ensures
            r == self.kind_spec(),
    {
        self.kind
    }

    pub fn status(&self) -> (r: BranchStatus)
        ensures
            r == self.status_spec(),
    {
        self.status
    }

    /// The encoder/muxer port template that this branch requests.
    pub fn pad_template(&self) -> (r: &'static str)
        requires
            self.wf(),
        ensures
            r@ == pad_template_spec(self.kind_spec()),
    {
        match self.kind {
            MediaKind::Audio => "audio_%u",
            _ => "video_%u",
        }
    }

    /// The step to perform next, while the branch is being built.
    pub fn next_action(&self) -> (r: Option<BranchAction>)
        requires
            self.wf(),
        ensures
            self.status_spec() == BranchStatus::Building ==> r == Some(
                action_at(self.kind_spec(), self.done_spec() as int),
            ),
            self.status_spec() != BranchStatus::Building ==> r is None,
    {
        if self.status != BranchStatus::Building {
            return None;
        }
        let a = if self.done < 3 {
            let t = match self.kind {
                MediaKind::Audio => if self.done == 0 {
                    ElementType::Queue
                } else if self.done == 1 {
                    ElementType::AudioConvert
                } else {
                    ElementType::AudioResample
                },
                _ => if self.done == 0 {
                    ElementType::Queue
                } else if self.done == 1 {
                    ElementType::VideoConvert
                } else {
                    ElementType::VideoScale
                },
            };
            BranchAction::Make(t)
        } else if self.done == 3 {
            BranchAction::AddAndLinkChain
        } else if self.done == 4 {
            BranchAction::RequestPort
        } else if self.done == 5 {
            BranchAction::LinkToEncoder
        } else if self.done == 6 {
            BranchAction::SyncStates
        } else {
            BranchAction::LinkSource
        };
        Some(a)
    }

    /// Records whether the step just performed succeeded. A success moves to
    /// the next step, and after the last one the branch is complete; a
    /// failure abandons the branch at that step.
    pub fn report(&mut self, ok: bool)
        requires
            old(self).wf(),
            old(self).status_spec() == BranchStatus::Building,
        ensures
            final(self).wf(),
            final(self).kind_spec() == old(self).kind_spec(),
            ok ==> final(self).done_spec() == old(self).done_spec() + 1,
            ok ==> final(self).status_spec() == if old(self).done_spec() + 1 == BRANCH_STEPS {
                BranchStatus::Complete
            } else {
                BranchStatus::Building
            },
            !ok ==> final(self).done_spec() == old(self).done_spec(),
            !ok ==> final(self).status_spec() == BranchStatus::Abandoned(
                action_at(old(self).kind_spec(), old(self).done_spec() as int),
            ),
    {
        if ok {
            self.done = self.done + 1;
            if self.done == BRANCH_STEPS {
                self.status = BranchStatus::Complete;
            }
        } else {
            let a = self.next_action();
            match a {
                Some(a) => {
                    self.status = BranchStatus::Abandoned(a);
                },
                None => {},
            }
        }
    }

    /// The error of an abandoned branch.
    pub fn failure(&self) -> (r: Option<RunError>)
        requires
            self.wf(),
        ensures
            self.status_spec() matches BranchStatus::Abandoned(a) ==> r == Some(failure_of(a)),
            !(self.status_spec() is Abandoned) ==> r is None,
    {
        match self.status {
            BranchStatus::Abandoned(a) => Some(failure(a)),
            _ => None,
        }
    }

    /// What became of the stream, once the branch is complete or abandoned.
    pub fn outcome(&self) -> (r: Option<StreamOutcome>)
        requires
            self.wf(),
        ensures
            r == outcome_spec(self.kind_spec(), self.status_spec()),
    {
        match self.status {
            BranchStatus::Building => None,
            BranchStatus::Complete => Some(StreamOutcome::Built(self.kind)),
            BranchStatus::Abandoned(a) => Some(StreamOutcome::Abandoned(self.kind, a)),
        }
    }
}

pub open spec fn outcome_spec(kind: MediaKind, status: BranchStatus) -> Option<StreamOutcome> {
    match status {
        BranchStatus::Building => None,
        BranchStatus::Complete => Some(StreamOutcome::Built(kind)),
        BranchStatus::Abandoned(a) => Some(StreamOutcome::Abandoned(kind, a)),
    }
}

/// The error that a failed step reports.
pub fn failure(a: BranchAction) -> (r: RunError)
    ensures
        r == failure_of(a),
{
    match a {
        BranchAction::Make(t) => RunError::UnavailableElement(t),
        BranchAction::AddAndLinkChain => RunError::LinkFailed,
        BranchAction::RequestPort => RunError::PortRequestDenied,
        BranchAction::LinkToEncoder => RunError::LinkFailed,
        BranchAction::SyncStates => RunError::EngineStateRejected,
        BranchAction::LinkSource => RunError::LinkFailed,
    }
}

} // verus!
