//! Per-entry mirror fallback: an explicit state machine that tries an
//! entry's mirrors strictly in declared order until one delivers or all
//! are exhausted, recording one failure reason per failed attempt.

use vstd::prelude::*;

verus! {

/// Why one mirror attempt failed.
#[derive(Debug)]
pub enum MirrorFailure {
    /// The network transfer failed: connection error, bad status, timeout.
    Transport(String),
    /// The body arrived but could not be written to the destination.
    Write(String),
}

impl Clone for MirrorFailure {
    fn clone(&self) -> (r: Self)
        ensures
            r == *self,
    {
        match self {
            MirrorFailure::Transport(s) => MirrorFailure::Transport(s.clone()),
            MirrorFailure::Write(s) => MirrorFailure::Write(s.clone()),
        }
    }
}

/// What attempting one mirror produced.
#[derive(Debug)]
pub enum AttemptEvent {
    /// The body was fetched and written to the destination.
    Delivered,
    /// The attempt failed; the payload says how.
    Failed(MirrorFailure),
}

impl Clone for AttemptEvent {
    fn clone(&self) -> (r: Self)
        ensures
            r == *self,
    {
        match self {
            AttemptEvent::Delivered => AttemptEvent::Delivered,
            AttemptEvent::Failed(m) => AttemptEvent::Failed(m.clone()),
        }
    }
}

/// The failure reason carried by a failed attempt.
pub open spec fn reason_of(e: AttemptEvent) -> MirrorFailure {
    e->Failed_0
}

/// One reason per attempt, in attempt order.
pub open spec fn failure_reasons(evs: Seq<AttemptEvent>) -> Seq<MirrorFailure> {
    evs.map_values(|e: AttemptEvent| reason_of(e))
}

/// Mirror `i` is the first whose attempt delivered.
pub open spec fn first_delivery(evs: Seq<AttemptEvent>, i: int) -> bool {
    &&& 0 <= i < evs.len()
    &&& evs[i] is Delivered
    &&& forall|j: int| 0 <= j < i ==> !((#[trigger] evs[j]) is Delivered)
}

/// No attempt delivered.
pub open spec fn all_attempts_failed(evs: Seq<AttemptEvent>) -> bool {
    forall|j: int| 0 <= j < evs.len() ==> !((#[trigger] evs[j]) is Delivered)
}

/// Terminal result of processing one entry's mirrors.
#[derive(Debug)]
pub enum DownloadStatus {
    /// Some mirror delivered; `mirror` is its index in declared order.
    Success { mirror: usize },
    /// Every mirror was attempted and failed; one reason per mirror, in
    /// declared order.
    Failed { reasons: Vec<MirrorFailure> },
}

/// The terminal result of processing one manifest entry: the resolved
/// destination name and the status. Exactly one outcome exists per entry.
#[derive(Debug)]
pub struct DownloadOutcome {
    pub name: String,
    pub status: DownloadStatus,
}

/// State of the per-entry fetch machine. An entry starts at the first
/// mirror, advances one mirror per failure, and stops at the first
/// delivery or once the list is exhausted; the two terminal states are
/// never left.
#[derive(Debug)]
pub enum FetchState {
    /// Mirror `next` of `mirror_count` is the one to attempt; `reasons`
    /// holds one failure per mirror already attempted.
    Trying { next: usize, mirror_count: usize, reasons: Vec<MirrorFailure> },
    /// Terminal: mirror `mirror` delivered.
    Succeeded { mirror: usize },
    /// Terminal: every mirror failed.
    Exhausted { reasons: Vec<MirrorFailure> },
}

impl FetchState {
    /// A live state points inside the mirror list and holds exactly one
    /// reason per mirror already attempted.
    pub open spec fn wf(&self) -> bool {
        match *self {
            FetchState::Trying { next, mirror_count, reasons } => next < mirror_count
                && reasons.len() == next,
            _ => true,
        }
    }

    pub open spec fn is_terminal(&self) -> bool {
        !(*self is Trying)
    }

    /// Starts processing an entry with `mirror_count` mirrors. With no
    /// mirror at all there is nothing to attempt and the entry is failed
    /// at once, with no recorded reason.
    pub fn new(mirror_count: usize) -> (s: FetchState)
        ensures
            s.wf(),
            mirror_count > 0 ==> (s matches FetchState::Trying { next, mirror_count: c, reasons }
                && next == 0 && c == mirror_count && reasons@ == Seq::<MirrorFailure>::empty()),
            mirror_count == 0 ==> (s matches FetchState::Exhausted { reasons } && reasons@
                == Seq::<MirrorFailure>::empty()),
    {
        if mirror_count == 0 {
            FetchState::Exhausted { reasons: Vec::new() }
        } else {
            FetchState::Trying { next: 0, mirror_count, reasons: Vec::new() }
        }
    }

    /// The mirror to attempt next, in declared order; nothing once the
    /// state is terminal.
    pub fn current_mirror(&self) -> (r: Option<usize>)
        ensures
            *self matches FetchState::Trying { next, .. } ==> r == Some(next),
            self.is_terminal() ==> r is None,
    {
        match self {
            FetchState::Trying { next, .. } => Some(*next),
            _ => None,
        }
    }

    /// Feeds the result of attempting the current mirror. A delivery ends
    /// the entry successfully; a failure records its reason and moves to
    /// the next mirror, or exhausts the entry when none is left.
    pub fn step(self, ev: AttemptEvent) -> (s: FetchState)
        requires
            self.wf(),
            self is Trying,
        ensures
            s.wf(),
            ev is Delivered ==> (s matches FetchState::Succeeded { mirror } && mirror
                == self->Trying_next),
            ev matches AttemptEvent::Failed(m) ==> if self->Trying_next + 1
                < self->Trying_mirror_count {
                (s matches FetchState::Trying { next, mirror_count, reasons } && next
                    == self->Trying_next + 1 && mirror_count == self->Trying_mirror_count
                    && reasons@ == self->Trying_reasons@.push(m))
            } else {
                (s matches FetchState::Exhausted { reasons } && reasons@
                    == self->Trying_reasons@.push(m))
            },
    {
        match self {
            FetchState::Trying { next, mirror_count, mut reasons } => {
                match ev {
                    AttemptEvent::Delivered => FetchState::Succeeded { mirror: next },
                    AttemptEvent::Failed(m) => {
                        reasons.push(m);
                        if next + 1 < mirror_count {
                            FetchState::Trying { next: next + 1, mirror_count, reasons }
                        } else {
                            FetchState::Exhausted { reasons }
                        }
                    },
                }
            },
            other => other,
        }
    }

    /// Reads a terminal state off as the entry's status.
    pub fn into_status(self) -> (st: DownloadStatus)
        requires
            self.is_terminal(),
        ensures
            self matches FetchState::Succeeded { mirror } ==> (st
                matches DownloadStatus::Success { mirror: m } && m == mirror),
            self matches FetchState::Exhausted { reasons } ==> (st
                matches DownloadStatus::Failed { reasons: r } && r == reasons),
    {
        match self {
            FetchState::Succeeded { mirror } => DownloadStatus::Success { mirror },
            FetchState::Exhausted { reasons } => DownloadStatus::Failed { reasons },
            FetchState::Trying { reasons, .. } => DownloadStatus::Failed { reasons },
        }
    }
}

/// Processes one entry's mirrors in declared order against the given
/// per-mirror attempt results: the pure core of the mirror fetcher. The
/// entry succeeds exactly when some mirror delivers, and then the first
/// delivering mirror is the one used; otherwise every mirror's failure
/// reason is reported, in order.
pub fn run_mirrors(mirror_count: usize, events: &Vec<AttemptEvent>) -> (st: DownloadStatus)
    requires
        events@.len() == mirror_count,
    ensures
        st matches DownloadStatus::Success { mirror } ==> first_delivery(events@, mirror as int),
        st matches DownloadStatus::Failed { reasons } ==> (all_attempts_failed(events@) && reasons@
            == failure_reasons(events@)),
        (st is Success) <==> !all_attempts_failed(events@),
{
    let mut state = FetchState::new(mirror_count);
    loop
        invariant
            state.wf(),
            events@.len() == mirror_count,
            state matches FetchState::Trying { next, mirror_count: c, reasons } ==> (c
                == mirror_count && reasons@ == failure_reasons(events@.take(next as int))
                && all_attempts_failed(events@.take(next as int))),
            state matches FetchState::Succeeded { mirror } ==> first_delivery(
                events@,
                mirror as int,
            ),
            state matches FetchState::Exhausted { reasons } ==> (all_attempts_failed(events@)
                && reasons@ == failure_reasons(events@)),
        ensures
            state.is_terminal(),
        decreases (match state {
            FetchState::Trying { next, .. } => mirror_count - next,
            _ => 0int,
        }),
    {
        let i = match state.current_mirror() {
            Some(i) => i,
            None => {
                break ;
            },
        };
        let ev = events[i].clone();
        proof {
            let pre = events@.take(i as int);
            assert(pre.push(events@[i as int]) =~= events@.take(i + 1));
            assert(failure_reasons(pre).push(reason_of(events@[i as int])) =~= failure_reasons(
                events@.take(i + 1),
            ));
            assert(events@.take(mirror_count as int) =~= events@);
        }
        state = state.step(ev);
    }
    state.into_status()
}

/// Law: mirror order is respected. If mirror `i` delivers and every
/// mirror before it fails, then `i`, and no other mirror, is the one the
/// entry's success reports.
pub proof fn lemma_mirror_order(evs: Seq<AttemptEvent>, i: int, k: int)
    requires
        0 <= i < evs.len(),
        evs[i] is Delivered,
        forall|j: int| 0 <= j < i ==> !((#[trigger] evs[j]) is Delivered),
        first_delivery(evs, k),
    ensures
        k == i,
{
    if k < i {
        assert(!(evs[k] is Delivered));
    }
    if k > i {
        assert(!(evs[i] is Delivered));
    }
}

/// Law: mirrors after the first delivery never matter. Two rounds of
/// attempt results that agree up to and including the first delivering
/// mirror report the same delivering mirror, whatever the later mirrors
/// would have done.
pub proof fn lemma_later_mirrors_irrelevant(evs1: Seq<AttemptEvent>, evs2: Seq<AttemptEvent>, i: int)
    requires
        first_delivery(evs1, i),
        i < evs2.len(),
        evs1.subrange(0, i + 1) == evs2.subrange(0, i + 1),
    ensures
        first_delivery(evs2, i),
{
    assert forall|j: int| 0 <= j <= i implies evs2[j] == evs1[j] by {
        assert(evs1.subrange(0, i + 1)[j] == evs1[j]);
        assert(evs2.subrange(0, i + 1)[j] == evs2[j]);
    }
}

} // verus!
