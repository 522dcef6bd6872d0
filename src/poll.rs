use vstd::prelude::*;

use crate::fetch::FetchError;
use crate::quote::Quote;
use crate::record::RecordError;

verus! {

/// Where the poll loop stands within a cycle.
#[derive(Debug, Clone, Copy, PartialEq, Eq)]
pub enum Phase {
    /// Waiting for the fetch of the current instrument.
    Fetching,
    /// Waiting for the current instrument's quote to be recorded.
    Recording,
    /// Every instrument was attempted; waiting for the pause to end.
    Sleeping,
}

/// A failure that the loop reports to the operator and then moves past.
#[derive(Debug, Clone, PartialEq, Eq)]
pub enum Failure {
    Fetch(FetchError),
    Record(RecordError),
}

/// What happened to the work that the last action asked for.
#[derive(Debug, PartialEq, Eq)]
pub enum Event {
    /// The fetch of the current instrument ended.
    Fetched(Result<Quote, FetchError>),
    /// The append to the current instrument's log ended.
    Recorded(Result<(), RecordError>),
    /// The pause between cycles is over.
    Woke,
}

/// The work that the loop asks for next.
#[derive(Debug, Clone, PartialEq, Eq)]
pub enum Action {
    /// Fetch a quote for the instrument at this place in the list.
    Fetch(usize),
    /// Append this price text to the log of the instrument at this place.
    Record(usize, String),
    /// Pause until the next cycle.
    Sleep,
}

/// The answer to one event: a failure to report, if any, and the next action.
#[derive(Debug, Clone, PartialEq, Eq)]
pub struct Directive {
    pub report: Option<Failure>,
    pub action: Action,
}

/// The loop as the contracts see it: the number of instruments, the current
/// one, the phase, the price waiting to be recorded, and for each instrument
/// the prices its log has received, oldest first.
pub ghost struct PollView {
    pub count: nat,
    pub position: nat,
    pub phase: Phase,
    pub pending: Seq<char>,
    pub logs: Seq<Seq<Seq<char>>>,
}

impl PollView {
    pub open spec fn wf(self) -> bool {
        &&& self.logs.len() == self.count
        &&& self.phase != Phase::Sleeping ==> self.position < self.count
        &&& self.phase == Phase::Sleeping ==> self.position == 0
    }

    /// The same loop in another phase at another place.
    pub open spec fn at(self, phase: Phase, position: nat) -> PollView {
        PollView {
            count: self.count,
            position,
            phase,
            pending: self.pending,
            logs: self.logs,
        }
    }
}

/// Moves past the current instrument: to the next one, or to the pause after
/// the last.
pub open spec fn advance(v: PollView) -> PollView {
    if v.position + 1 < v.count {
        v.at(Phase::Fetching, v.position + 1)
    } else {
        v.at(Phase::Sleeping, 0)
    }
}

/// The loop after `e`. An event that does not belong to the phase changes
/// nothing.
pub open spec fn next(v: PollView, e: Event) -> PollView {
    match e {
        Event::Fetched(outcome) => if v.phase == Phase::Fetching {
            match outcome {
                Ok(q) => PollView {
                    count: v.count,
                    position: v.position,
                    phase: Phase::Recording,
                    pending: q.price@,
                    logs: v.logs,
                },
                Err(_) => advance(v),
            }
        } else {
            v
        },
        Event::Recorded(outcome) => if v.phase == Phase::Recording {
            match outcome {
                Ok(_) => advance(
                    PollView {
                        count: v.count,
                        position: v.position,
                        phase: v.phase,
                        pending: v.pending,
                        logs: v.logs.update(
                            v.position as int,
                            v.logs[v.position as int].push(v.pending),
                        ),
                    },
                ),
                Err(_) => advance(v),
            }
        } else {
            v
        },
        Event::Woke => if v.phase == Phase::Sleeping && v.count > 0 {
            v.at(Phase::Fetching, 0)
        } else {
            v
        },
    }
}

/// The failure that `e` brings to report, if it belongs to the phase.
pub open spec fn report_of(v: PollView, e: Event) -> Option<Failure> {
    match e {
        Event::Fetched(Err(f)) => if v.phase == Phase::Fetching {
            Some(Failure::Fetch(f))
        } else {
            None
        },
        Event::Recorded(Err(f)) => if v.phase == Phase::Recording {
            Some(Failure::Record(f))
        } else {
            None
        },
        _ => None,
    }
}

/// Whether `a` is the action that the loop asks for in `v`.
pub open spec fn asks(v: PollView, a: Action) -> bool {
    match v.phase {
        Phase::Fetching => a == Action::Fetch(v.position as usize),
        Phase::Recording => a matches Action::Record(i, t) && i == v.position && t@ == v.pending,
        Phase::Sleeping => a == Action::Sleep,
    }
}

/// The poll loop's decisions: which instrument to fetch, what to record, when
/// to pause. The fetching, the writing and the pause itself are left to the
/// caller, which hands back an event for each action.
pub struct Poller {
    count: usize,
    position: usize,
    phase: Phase,
    pending: String,
    logs: Ghost<Seq<Seq<Seq<char>>>>,
}

impl View for Poller {
    type V = PollView;

    closed spec fn view(&self) -> PollView {
        PollView {
            count: self.count as nat,
            position: self.position as nat,
            phase: self.phase,
            pending: self.pending@,
            logs: self.logs@,
        }
    }
}

impl Poller {
    #[verifier::type_invariant]
    closed spec fn inv(&self) -> bool {
        self@.wf()
    }

    /// A loop over `count` instruments, about to fetch the first; with none it
    /// only pauses.
    pub fn new(count: usize) -> (r: Poller)
        ensures
            r@.wf(),
            r@.count == count,
            r@.position == 0,
            r@.phase == (if count > 0 {
                Phase::Fetching
            } else {
                Phase::Sleeping
            }),
            r@.logs == Seq::new(count as nat, |i: int| Seq::<Seq<char>>::empty()),
    {
        Poller {
            count,
            position: 0,
            phase: if count > 0 {
                Phase::Fetching
            } else {
                Phase::Sleeping
            },
            pending: String::new(),
            logs: Ghost(Seq::new(count as nat, |i: int| Seq::<Seq<char>>::empty())),
        }
    }

    /// The action that the loop asks for now.
    pub fn action(&self) -> (r: Action)
        ensures
            asks(self@, r),
    {
        match self.phase {
            Phase::Fetching => Action::Fetch(self.position),
            Phase::Recording => Action::Record(self.position, self.pending.clone()),
            Phase::Sleeping => Action::Sleep,
        }
    }

    fn move_on(&mut self)
        requires
            old(self)@.phase != Phase::Sleeping,
        ensures
            final(self)@ == advance(old(self)@),
    {
        proof {
            use_type_invariant(&*self);
        }
        if self.position + 1 < self.count {
            self.position = self.position + 1;
            self.phase = Phase::Fetching;
        } else {
            self.position = 0;
            self.phase = Phase::Sleeping;
        }
    }

    /// Takes in what became of the last action: the loop moves on as `next`
    /// says, reports a failure as `report_of` says, and asks for what follows.
    pub fn handle(&mut self, event: Event) -> (r: Directive)
        ensures
            old(self)@.wf(),
            final(self)@.wf(),
            final(self)@ == next(old(self)@, event),
            r.report == report_of(old(self)@, event),
            asks(final(self)@, r.action),
    {
        proof {
            use_type_invariant(&*self);
        }
        let report = match event {
            Event::Fetched(outcome) => match self.phase {
                Phase::Fetching => match outcome {
                    Ok(q) => {
                        self.pending = q.price;
                        self.phase = Phase::Recording;
                        None
                    },
                    Err(f) => {
                        self.move_on();
                        Some(Failure::Fetch(f))
                    },
                },
                _ => None,
            },
            Event::Recorded(outcome) => match self.phase {
                Phase::Recording => match outcome {
                    Ok(_) => {
                        let ghost p = self.position as int;
                        self.logs = Ghost(self.logs@.update(p, self.logs@[p].push(self.pending@)));
                        self.move_on();
                        None
                    },
                    Err(f) => {
                        self.move_on();
                        Some(Failure::Record(f))
                    },
                },
                _ => None,
            },
            Event::Woke => {
                if self.count > 0 {
                    match self.phase {
                        Phase::Sleeping => {
                            self.phase = Phase::Fetching;
                        },
                        _ => {},
                    }
                }
                None
            },
        };
        proof {
            use_type_invariant(&*self);
        }
        Directive { report, action: self.action() }
    }
}

/// One successful fetch followed by one successful append.
pub open spec fn succeed(v: PollView, q: Quote) -> PollView {
    next(next(v, Event::Fetched(Ok(q))), Event::Recorded(Ok(())))
}

/// The loop after the instruments from the current one on each fetch and
/// record the quotes `qs`, in order.
pub open spec fn run_success(v: PollView, qs: Seq<Quote>) -> PollView
    decreases qs.len(),
{
    if qs.len() == 0 {
        v
    } else {
        run_success(succeed(v, qs[0]), qs.drop_first())
    }
}

/// The loop after whole cycles, each with every fetch and append succeeding
/// (`rounds[k][i]` is the quote of instrument `i` in cycle `k`) and each ended
/// by its pause.
pub open spec fn run_cycles(v: PollView, rounds: Seq<Seq<Quote>>) -> PollView
    decreases rounds.len(),
{
    if rounds.len() == 0 {
        v
    } else {
        run_cycles(next(run_success(v, rounds[0]), Event::Woke), rounds.drop_first())
    }
}

/// A failed fetch does not end the cycle: the loop reports it, leaves every
/// log as it was and goes on to the next instrument, whose quote, once fetched
/// and appended, reaches that instrument's log and no other.
pub proof fn lemma_failure_is_isolated(v: PollView, f: FetchError, q: Quote)
    requires
        v.wf(),
        v.phase == Phase::Fetching,
        v.position + 1 < v.count,
    ensures
        report_of(v, Event::Fetched(Err(f))) == Some(Failure::Fetch(f)),
        next(v, Event::Fetched(Err(f))).phase == Phase::Fetching,
        next(v, Event::Fetched(Err(f))).position == v.position + 1,
        next(v, Event::Fetched(Err(f))).logs == v.logs,
        ({
            let w = succeed(next(v, Event::Fetched(Err(f))), q);
            &&& w.logs[v.position + 1 as int] == v.logs[v.position + 1 as int].push(q.price@)
            &&& forall|i: int| 0 <= i < v.count && i != v.position + 1 ==> w.logs[i] == v.logs[i]
        }),
{
}

proof fn lemma_run_success(v: PollView, qs: Seq<Quote>)
    requires
        v.wf(),
        v.phase == Phase::Fetching,
        v.position + qs.len() == v.count,
    ensures
        run_success(v, qs).wf(),
        run_success(v, qs).count == v.count,
        run_success(v, qs).phase == Phase::Sleeping,
        forall|i: int| 0 <= i < v.position ==> run_success(v, qs).logs[i] == v.logs[i],
        forall|i: int|
            v.position <= i < v.count ==> run_success(v, qs).logs[i] == v.logs[i].push(
                qs[i - v.position].price@,
            ),
    decreases qs.len(),
{
    let p = v.position as int;
    let w = succeed(v, qs[0]);
    assert(w.logs == v.logs.update(p, v.logs[p].push(qs[0].price@)));
    assert(run_success(v, qs) == run_success(w, qs.drop_first()));
    let r = run_success(v, qs);
    if v.position + 1 < v.count {
        let rest = qs.drop_first();
        lemma_run_success(w, rest);
        assert(w.position == p + 1);
        assert forall|i: int| 0 <= i < v.position implies r.logs[i] == v.logs[i] by {
            assert(w.logs[i] == v.logs[i]);
        }
        assert forall|i: int| v.position <= i < v.count implies r.logs[i] == v.logs[i].push(
            qs[i - v.position].price@,
        ) by {
            assert(r == run_success(w, rest));
            if i > p {
                assert(rest[i - w.position] == qs[i - v.position]);
                assert(w.logs[i] == v.logs[i]);
                assert(run_success(w, rest).logs[i] == w.logs[i].push(rest[i - w.position].price@));
            } else {
                assert(run_success(w, rest).logs[i] == w.logs[i]);
            }
        }
    } else {
        assert(qs.drop_first().len() == 0);
        assert(r == w);
        assert forall|i: int| 0 <= i < v.position implies r.logs[i] == v.logs[i] by {}
        assert forall|i: int| v.position <= i < v.count implies r.logs[i] == v.logs[i].push(
            qs[i - v.position].price@,
        ) by {}
    }
}

/// Liveness of the loop: after `n` cycles in which every fetch and append
/// succeeds, each instrument's log has received exactly `n` more prices, the
/// one of each cycle in cycle order, and the loop is ready for the next cycle.
pub proof fn lemma_cycles_fill_logs(v: PollView, rounds: Seq<Seq<Quote>>)
    requires
        v.wf(),
        v.count > 0,
        v.phase == Phase::Fetching,
        v.position == 0,
        forall|k: int| 0 <= k < rounds.len() ==> #[trigger] rounds[k].len() == v.count,
    ensures
        run_cycles(v, rounds).wf(),
        run_cycles(v, rounds).count == v.count,
        run_cycles(v, rounds).phase == Phase::Fetching,
        run_cycles(v, rounds).position == 0,
        forall|i: int|
            0 <= i < v.count ==> #[trigger] run_cycles(v, rounds).logs[i].len() == v.logs[i].len()
                + rounds.len(),
        forall|i: int|
            0 <= i < v.count ==> #[trigger] run_cycles(v, rounds).logs[i] == v.logs[i] + Seq::new(
                rounds.len(),
                |k: int| rounds[k][i].price@,
            ),
    decreases rounds.len(),
{
    if rounds.len() == 0 {
        assert forall|i: int| 0 <= i < v.count implies #[trigger] run_cycles(v, rounds).logs[i]
            == v.logs[i] + Seq::new(rounds.len(), |k: int| rounds[k][i].price@) by {
            assert(v.logs[i] + Seq::new(rounds.len(), |k: int| rounds[k][i].price@) =~= v.logs[i]);
        }
    } else {
        assert(rounds[0].len() == v.count);
        lemma_run_success(v, rounds[0]);
        let w = next(run_success(v, rounds[0]), Event::Woke);
        let rest = rounds.drop_first();
        assert forall|k: int| 0 <= k < rest.len() implies #[trigger] rest[k].len() == w.count by {
            assert(rest[k] == rounds[k + 1]);
        }
        lemma_cycles_fill_logs(w, rest);
        assert forall|i: int| 0 <= i < v.count implies #[trigger] run_cycles(v, rounds).logs[i]
            == v.logs[i] + Seq::new(rounds.len(), |k: int| rounds[k][i].price@) by {
            assert(w.logs[i] == v.logs[i].push(rounds[0][i].price@));
            assert(w.logs[i] + Seq::new(rest.len(), |k: int| rest[k][i].price@) =~= v.logs[i]
                + Seq::new(rounds.len(), |k: int| rounds[k][i].price@));
        }
    }
}

} // verus!
