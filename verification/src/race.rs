//! The race coordinator: an admission-controlled speculative scheduler that
//! keeps at most a fixed number of candidate resolutions in flight, replaces
//! candidates as they fail or are rejected, and accepts the first resolution
//! that passes validation.
//!
//! The decisions live here as a state machine; the surrounding runtime spawns
//! tasks, awaits completions and feeds each completion back through
//! [`RaceState::on_result`].
use vstd::prelude::*;

verus! {

/// The admission state of one race over an ordered candidate list.
pub struct RaceState {
    /// How many candidates the race was given.
    pub total: usize,
    /// The admission width: at most this many candidates are in flight.
    pub width: usize,
    /// The next candidate index that has not been started yet; candidates
    /// `0..next_idx` have been started, in order.
    pub next_idx: usize,
    /// Candidates started and not yet completed.
    pub in_flight: usize,
    /// Set once the race is settled: a winner accepted, cancellation
    /// observed, or every candidate exhausted.
    pub finished: bool,
}

/// The race's admission discipline: candidates start in order, and never more
/// than `width` are in flight at once.
pub open spec fn race_inv(s: RaceState) -> bool {
    &&& s.next_idx <= s.total
    &&& s.in_flight <= s.width
    &&& s.in_flight <= s.next_idx
}

/// What the runtime must do after reporting a completion.
pub enum RaceAction {
    /// The completed candidate wins; hand its resolution to playback and stop
    /// waiting on the rest.
    Accept,
    /// Start the candidate with this index to keep the pool full.
    Spawn(usize),
    /// Nothing to start; wait for the next completion.
    Wait,
    /// Every candidate has been tried and none won.
    Exhausted,
}

impl RaceState {
    /// Open a race over `total` candidates with the requested admission
    /// width. Returns the state and the indices to start at once: the first
    /// `min(width, total)` candidates, in order. With no candidates (or no
    /// width) the race is settled immediately and nothing is started.
    pub fn start(total: usize, requested_width: usize) -> (r: (RaceState, Vec<usize>))
        ensures
            race_inv(r.0),
            r.0.total == total,
            r.0.width == if requested_width <= total {
                requested_width as int
            } else {
                total as int
            },
            r.0.next_idx == r.0.width,
            r.0.in_flight == r.0.width,
            r.0.finished <==> r.0.width == 0,
            r.1@.len() == r.0.width,
            forall|i: int| 0 <= i < r.1@.len() ==> r.1@[i] == i,
    {
        let width = if requested_width <= total {
            requested_width
        } else {
            total
        };
        let mut spawn: Vec<usize> = Vec::new();
        let mut i: usize = 0;
        while i < width
            invariant
                i <= width,
                spawn@.len() == i,
                forall|k: int| 0 <= k < i ==> spawn@[k] == k,
            decreases width - i,
        {
            spawn.push(i);
            i += 1;
        }
        let st = RaceState {
            total,
            width,
            next_idx: width,
            in_flight: width,
            finished: width == 0,
        };
        (st, spawn)
    }

    /// Record one completed candidate. `accepted` means it resolved
    /// successfully and its selected file passed validation: the race is won.
    /// Otherwise the completion is discarded and, while candidates remain,
    /// the next one is started so the pool keeps its width.
    pub fn on_result(&mut self, accepted: bool) -> (a: RaceAction)
        requires
            race_inv(*old(self)),
            !old(self).finished,
            old(self).in_flight > 0,
        ensures
            race_inv(*final(self)),
            final(self).total == old(self).total,
            final(self).width == old(self).width,
            accepted ==> {
                &&& a is Accept
                &&& final(self).finished
                &&& final(self).next_idx == old(self).next_idx
            },
            !accepted && old(self).next_idx < old(self).total ==> {
                &&& a == RaceAction::Spawn(old(self).next_idx)
                &&& final(self).next_idx == old(self).next_idx + 1
                &&& final(self).in_flight == old(self).in_flight
                &&& !final(self).finished
            },
            !accepted && old(self).next_idx == old(self).total ==> {
                &&& final(self).next_idx == old(self).next_idx
                &&& final(self).in_flight == old(self).in_flight - 1
                &&& (old(self).in_flight == 1 ==> a is Exhausted && final(self).finished)
                &&& (old(self).in_flight > 1 ==> a is Wait && !final(self).finished)
            },
    {
        self.in_flight = self.in_flight - 1;
        if accepted {
            self.finished = true;
            return RaceAction::Accept;
        }
        if self.next_idx < self.total {
            let idx = self.next_idx;
            self.next_idx = self.next_idx + 1;
            self.in_flight = self.in_flight + 1;
            return RaceAction::Spawn(idx);
        }
        if self.in_flight == 0 {
            self.finished = true;
            return RaceAction::Exhausted;
        }
        RaceAction::Wait
    }

    /// Observe cancellation: the race is settled at once, no further
    /// candidate is ever started, and the caller reports a cancellation
    /// failure without waiting for in-flight completions.
    pub fn on_cancel(&mut self)
        ensures
            final(self).finished,
            final(self).total == old(self).total,
            final(self).width == old(self).width,
            final(self).next_idx == old(self).next_idx,
            final(self).in_flight == old(self).in_flight,
    {
        self.finished = true;
    }
}

/// The winner a race settles on when completions arrive in candidate order:
/// the first candidate whose verdict is positive wins; with no positive
/// verdict (or an empty list) the race exhausts and fails. This drives the
/// same state machine the runtime drives, one completion at a time.
pub fn race_outcome_in_order(verdicts: &Vec<bool>, requested_width: usize) -> (r: Option<usize>)
    ensures
        match r {
            Some(w) => {
                &&& 0 <= w < verdicts@.len()
                &&& verdicts@[w as int]
                &&& forall|k: int| 0 <= k < w ==> !verdicts@[k]
            },
            None => forall|k: int|
                0 <= k < verdicts@.len() ==> !(requested_width > 0 && #[trigger] verdicts@[k]),
        },
{
    let total = verdicts.len();
    let (mut st, _spawned) = RaceState::start(total, requested_width);
    let mut done: usize = 0;
    while !st.finished
        invariant
            race_inv(st),
            st.total == total,
            total == verdicts@.len(),
            done <= st.next_idx,
            st.in_flight == st.next_idx - done,
            !st.finished ==> st.in_flight > 0,
            st.width == if requested_width <= total {
                requested_width as int
            } else {
                total as int
            },
            st.finished ==> (st.width == 0 || done == total),
            forall|k: int| 0 <= k < done ==> !verdicts@[k],
        decreases total - done,
    {
        let accepted = verdicts[done];
        let a = st.on_result(accepted);
        match a {
            RaceAction::Accept => {
                return Some(done);
            },
            RaceAction::Spawn(_next) => {
            },
            RaceAction::Wait => {
            },
            RaceAction::Exhausted => {
            },
        }
        done += 1;
    }
    None
}

} // verus!
