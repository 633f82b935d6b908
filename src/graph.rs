//! The router that dispatches each discovered source output, and the record
//! of what became of every output: how many branches of each kind feed the
//! encoder/muxer and how many of its input ports were granted.
use vstd::prelude::*;
use crate::branch::{BranchAction, StreamOutcome, step_index};
use crate::media::{MediaKind, classify, kind_of};

verus! {

/// What the router does with a newly discovered source output.
#[derive(Clone, Copy, Debug, PartialEq, Eq, Structural)]
pub enum RouteDecision {
    /// The graph was torn down, or has no encoder/muxer: return at once.
    Drop,
    /// No capabilities were negotiated on the output: log and return.
    Unnegotiated,
    /// Neither audio nor video: pass, with no branch and no error.
    Ignore,
    /// Build a branch of this kind.
    Build(MediaKind),
}

pub open spec fn route_spec(graph_alive: bool, encoder_found: bool, caps_name: Option<Seq<char>>) -> RouteDecision {
    if !graph_alive || !encoder_found {
        RouteDecision::Drop
    } else {
        match caps_name {
            None => RouteDecision::Unnegotiated,
            Some(n) => match kind_of(n) {
                MediaKind::Unknown => RouteDecision::Ignore,
                k => RouteDecision::Build(k),
            },
        }
    }
}

pub open spec fn opt_view(o: Option<&str>) -> Option<Seq<char>> {
    match o {
        Some(s) => Some(s@),
        None => None,
    }
}

/// Dispatches a discovered output: whether the graph is still alive (its
/// weak handle upgraded), whether the encoder/muxer was found by name, and the
/// media-type name of the output's first negotiated capability structure.
pub fn route(graph_alive: bool, encoder_found: bool, caps_name: Option<&str>) -> (r: RouteDecision)
    ensures
        r == route_spec(graph_alive, encoder_found, opt_view(caps_name)),
{
    if !graph_alive || !encoder_found {
        return RouteDecision::Drop;
    }
    match caps_name {
        None => RouteDecision::Unnegotiated,
        Some(n) => match classify(n) {
            MediaKind::Unknown => RouteDecision::Ignore,
            k => RouteDecision::Build(k),
        },
    }
}

/// The outcome of an output on which no branch is built.
pub open spec fn skip_outcome_spec(d: RouteDecision) -> StreamOutcome {
    match d {
        RouteDecision::Unnegotiated => StreamOutcome::Unnegotiated,
        RouteDecision::Ignore => StreamOutcome::Ignored,
        _ => StreamOutcome::Dropped,
    }
}

/// The outcome of an output on which no branch is built.
pub fn skip_outcome(d: RouteDecision) -> (r: StreamOutcome)
    requires
        !(d is Build),
    ensures
        r == skip_outcome_spec(d),
{
    match d {
        RouteDecision::Unnegotiated => StreamOutcome::Unnegotiated,
        RouteDecision::Ignore => StreamOutcome::Ignored,
        _ => StreamOutcome::Dropped,
    }
}

/// A quantity read off the record of outcomes.
#[derive(Clone, Copy, Debug, PartialEq, Eq, Structural)]
pub enum Tally {
    /// Complete branches of a kind.
    Branches(MediaKind),
    /// Input ports granted by the encoder/muxer.
    Ports,
    /// Abandoned branches.
    Abandoned,
}

/// A port is held by every complete branch and by every branch abandoned
/// after its port was granted.
pub open spec fn holds_port(o: StreamOutcome) -> bool {
    match o {
        StreamOutcome::Built(_) => true,
        StreamOutcome::Abandoned(_, a) => step_index(a) > step_index(BranchAction::RequestPort),
        _ => false,
    }
}

pub open spec fn counted(t: Tally, o: StreamOutcome) -> bool {
    match t {
        Tally::Branches(k) => o == StreamOutcome::Built(k),
        Tally::Ports => holds_port(o),
        Tally::Abandoned => o is Abandoned,
    }
}

/// How many outcomes of `s` count towards `t`.
pub open spec fn count_of(s: Seq<StreamOutcome>, t: Tally) -> nat
    decreases s.len(),
{
    if s.len() == 0 {
        0
    } else {
        count_of(s.drop_last(), t) + if counted(t, s.last()) { 1nat } else { 0nat }
    }
}

/// How many entries of `s` are of kind `k`.
pub open spec fn count_kind(s: Seq<MediaKind>, k: MediaKind) -> nat
    decreases s.len(),
{
    if s.len() == 0 {
        0
    } else {
        count_kind(s.drop_last(), k) + if s.last() == k { 1nat } else { 0nat }
    }
}

fn is_counted(t: Tally, o: StreamOutcome) -> (r: bool)
    ensures
        r == counted(t, o),
{
    match t {
        Tally::Branches(k) => o == StreamOutcome::Built(k),
        Tally::Ports => match o {
            StreamOutcome::Built(_) => true,
            StreamOutcome::Abandoned(_, a) => match a {
                BranchAction::LinkToEncoder | BranchAction::SyncStates | BranchAction::LinkSource => true,
                BranchAction::Make(_) | BranchAction::AddAndLinkChain | BranchAction::RequestPort => false,
            },
            _ => false,
        },
        Tally::Abandoned => match o {
            StreamOutcome::Abandoned(_, _) => true,
            _ => false,
        },
    }
}

/// The record of every discovered output's outcome, in discovery order.
pub struct Topology {
    outcomes: Vec<StreamOutcome>,
}

impl View for Topology {
    type V = Seq<StreamOutcome>;

    closed spec fn view(&self) -> Seq<StreamOutcome> {
        self.outcomes@
    }
}

impl Topology {
    /// The skeleton alone: no output discovered yet.
    pub fn new() -> (r: Topology)
        ensures
            r@ == Seq::<StreamOutcome>::empty(),
    {
        Topology { outcomes: Vec::new() }
    }

    /// Records the outcome of one more discovered output.
    pub fn record(&mut self, o: StreamOutcome)
        ensures
            final(self)@ == old(self)@.push(o),
    {
        self.outcomes.push(o);
    }

    /// The outcomes recorded so far.
    pub fn outcomes(&self) -> (r: &Vec<StreamOutcome>)
        ensures
            r@ == self@,
    {
        &self.outcomes
    }

    /// How many recorded outcomes count towards `t`.
    pub fn count(&self, t: Tally) -> (r: usize)
        ensures
            r == count_of(self@, t),
    {
        let mut n: usize = 0;
        let mut i: usize = 0;
        while i < self.outcomes.len()
            invariant
                i <= self@.len(),
                n == count_of(self@.take(i as int), t),
                n <= i,
            decreases self@.len() - i,
        {
            assert(self@.take(i + 1).drop_last() =~= self@.take(i as int));
            if is_counted(t, self.outcomes[i]) {
                n = n + 1;
            }
            i = i + 1;
        }
        assert(self@.take(i as int) =~= self@);
        n
    }

    /// Complete audio branches.
    pub fn audio_branches(&self) -> (r: usize)
        ensures
            r == count_of(self@, Tally::Branches(MediaKind::Audio)),
    {
        self.count(Tally::Branches(MediaKind::Audio))
    }

    /// Complete video branches.
    pub fn video_branches(&self) -> (r: usize)
        ensures
            r == count_of(self@, Tally::Branches(MediaKind::Video)),
    {
        self.count(Tally::Branches(MediaKind::Video))
    }

    /// Input ports granted by the encoder/muxer.
    pub fn requested_ports(&self) -> (r: usize)
        ensures
            r == count_of(self@, Tally::Ports),
    {
        self.count(Tally::Ports)
    }

    /// Abandoned branches.
    pub fn abandoned_branches(&self) -> (r: usize)
        ensures
            r == count_of(self@, Tally::Abandoned),
    {
        self.count(Tally::Abandoned)
    }
}

/// Counting over two runs of outcomes adds up.
pub proof fn lemma_count_concat(a: Seq<StreamOutcome>, b: Seq<StreamOutcome>, t: Tally)
    ensures
        count_of(a + b, t) == count_of(a, t) + count_of(b, t),
    decreases b.len(),
{
    if b.len() == 0 {
        assert(a + b =~= a);
    } else {
        assert((a + b).drop_last() =~= a + b.drop_last());
        lemma_count_concat(a, b.drop_last(), t);
    }
}

/// When every discovered stream is audio or video and every branch
/// completes, there are exactly as many audio branches as audio streams, as
/// many video branches as video streams, and one granted port per stream.
pub proof fn lemma_one_branch_per_stream(kinds: Seq<MediaKind>)
    requires
        forall|i: int| 0 <= i < kinds.len() ==> kinds[i] != MediaKind::Unknown,
    ensures
        ({
            let o = kinds.map_values(|k: MediaKind| StreamOutcome::Built(k));
            &&& count_of(o, Tally::Branches(MediaKind::Audio)) == count_kind(kinds, MediaKind::Audio)
            &&& count_of(o, Tally::Branches(MediaKind::Video)) == count_kind(kinds, MediaKind::Video)
            &&& count_of(o, Tally::Ports) == count_kind(kinds, MediaKind::Audio) + count_kind(
                kinds,
                MediaKind::Video,
            )
            &&& count_of(o, Tally::Abandoned) == 0
        }),
    decreases kinds.len(),
{
    let o = kinds.map_values(|k: MediaKind| StreamOutcome::Built(k));
    if kinds.len() > 0 {
        let p = kinds.drop_last();
        assert(o.drop_last() =~= p.map_values(|k: MediaKind| StreamOutcome::Built(k)));
        lemma_one_branch_per_stream(p);
    }
}

proof fn lemma_count_single(o: StreamOutcome, t: Tally)
    ensures
        count_of(seq![o], t) == if counted(t, o) { 1nat } else { 0nat },
{
    assert(seq![o].drop_last() =~= Seq::<StreamOutcome>::empty());
    assert(seq![o].last() == o);
    assert(count_of(seq![o].drop_last(), t) == 0);
}

/// The order in which streams are discovered does not matter: any two
/// discovery orders of the same outcomes give the same branches, ports and
/// abandonments.
pub proof fn lemma_count_permutation(s1: Seq<StreamOutcome>, s2: Seq<StreamOutcome>, t: Tally)
    requires
        s1.to_multiset() == s2.to_multiset(),
    ensures
        count_of(s1, t) == count_of(s2, t),
    decreases s1.len(),
{
    broadcast use vstd::multiset::group_multiset_axioms;
    broadcast use vstd::seq_lib::to_multiset_len;

    if s1.len() == 0 {
        assert(s1.to_multiset().len() == 0);
        assert(s2.to_multiset().len() == s2.len());
    } else {
        let x = s1.last();
        let p1 = s1.drop_last();
        assert(p1.push(x) =~= s1);
        vstd::seq_lib::to_multiset_build(p1, x);
        vstd::seq_lib::to_multiset_contains(s2, x);
        assert(s2.to_multiset().count(x) > 0);
        let i = choose|i: int| 0 <= i < s2.len() && s2[i] == x;
        let p2 = s2.remove(i);
        vstd::seq_lib::to_multiset_remove(s2, i);
        assert(p2.to_multiset() =~= p1.to_multiset());
        lemma_count_permutation(p1, p2, t);
        let a = s2.subrange(0, i);
        let b = s2.subrange(i + 1, s2.len() as int);
        assert(s2 =~= a + seq![x] + b);
        assert(p2 =~= a + b);
        lemma_count_concat(a + seq![x], b, t);
        lemma_count_concat(a, seq![x], t);
        lemma_count_concat(a, b, t);
        lemma_count_single(x, t);
    }
}

/// A branch whose port request is denied changes nothing for its siblings:
/// the complete branches and granted ports are those of the other outcomes,
/// and the denied branch is one more abandoned one.
pub proof fn lemma_denied_port_isolated(
    before: Seq<StreamOutcome>,
    after: Seq<StreamOutcome>,
    kind: MediaKind,
)
    ensures
        ({
            let with = before + seq![StreamOutcome::Abandoned(kind, BranchAction::RequestPort)] + after;
            let without = before + after;
            &&& count_of(with, Tally::Branches(MediaKind::Audio)) == count_of(
                without,
                Tally::Branches(MediaKind::Audio),
            )
            &&& count_of(with, Tally::Branches(MediaKind::Video)) == count_of(
                without,
                Tally::Branches(MediaKind::Video),
            )
            &&& count_of(with, Tally::Ports) == count_of(without, Tally::Ports)
            &&& count_of(with, Tally::Abandoned) == count_of(without, Tally::Abandoned) + 1
        }),
{
    let d = seq![StreamOutcome::Abandoned(kind, BranchAction::RequestPort)];
    assert forall|t: Tally| #[trigger] count_of(before + d + after, t) == count_of(before + after, t) + if counted(
        t,
        d[0],
    ) {
        1nat
    } else {
        0nat
    } by {
        lemma_count_concat(before + d, after, t);
        lemma_count_concat(before, d, t);
        lemma_count_concat(before, after, t);
        lemma_count_single(d[0], t);
    }
}

} // verus!
