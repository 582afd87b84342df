//! Walking a chain of revisions back to the create that it began with.
//!
//! A walk fetches a record, notes its action and, where the action is an
//! update, goes on at the action that the update replaces. [`TraceState`]
//! takes one such step at a time, for callers that fetch by themselves;
//! [`trace_origin`] runs the whole walk over a fetch that it is given.

use vstd::prelude::*;

use crate::action::{Action, Record};
use crate::error::Error;
use crate::hash::ActionHash;

verus! {

/// Where a walk along a revision chain stands, as contracts see it.
pub enum Trace {
    /// The record at `next` is still to be fetched. The history may grow to
    /// `limit` actions and no further.
    Walking { next: ActionHash, history: Seq<(ActionHash, Action)>, limit: usize },
    /// The walk has reached the create that the chain began with.
    Origin { history: Seq<(ActionHash, Action)> },
    /// The walk has failed, and what it had collected is gone.
    Failed { error: Error },
}

/// Where a walk along a revision chain stands.
///
/// The history holds the visited actions, the one visited first in front.
pub enum TraceState {
    Walking { next: ActionHash, history: Vec<(ActionHash, Action)>, limit: usize },
    Origin { history: Vec<(ActionHash, Action)> },
    Failed { error: Error },
}

impl View for TraceState {
    type V = Trace;

    open spec fn view(&self) -> Trace {
        match *self {
            TraceState::Walking { next, history, limit } => Trace::Walking {
                next,
                history: history@,
                limit,
            },
            TraceState::Origin { history } => Trace::Origin { history: history@ },
            TraceState::Failed { error } => Trace::Failed { error },
        }
    }
}

/// Whether the pairs are the history of a whole walk: at least one pair,
/// an update in every pair but the last, and a create in the last.
pub open spec fn is_revision_history(history: Seq<(ActionHash, Action)>) -> bool {
    &&& history.len() > 0
    &&& forall|i: int| 0 <= i < history.len() - 1 ==> (#[trigger] history[i]).1 is Update
    &&& history.last().1 is Create
}

impl Trace {
    /// Whether the walk is one that steps from a start can lead to: while it
    /// is going, it has noted updates only, no more than its limit, and asks
    /// for the action that the last of them replaces; at the origin, its
    /// history is that of a whole walk.
    pub open spec fn wf(self) -> bool {
        match self {
            Trace::Walking { next, history, limit } => {
                &&& history.len() <= limit
                &&& forall|i: int| 0 <= i < history.len() ==> (#[trigger] history[i]).1 is Update
                &&& history.len() > 0 ==> (history.last().1 matches Action::Update(update)
                    && update.original_action_address == next)
            },
            Trace::Origin { history } => is_revision_history(history),
            Trace::Failed { .. } => true,
        }
    }
}

/// The walk that is about to fetch the record at `action_address`, and that
/// notes `limit` actions at most.
pub open spec fn trace_within(action_address: ActionHash, limit: usize) -> Trace {
    Trace::Walking { next: action_address, history: Seq::empty(), limit }
}

/// The walk that is about to fetch the record at `action_address`, and that
/// notes as many actions as a sequence in memory can hold.
pub open spec fn trace_from(action_address: ActionHash) -> Trace {
    trace_within(action_address, usize::MAX)
}

/// The walk after one fetch.
///
/// A failed fetch fails the walk. An update is noted, and the walk goes on at
/// the action that it replaces. A create is noted and ends the walk. Any other
/// action fails the walk with `WrongActionKindInChain`. A create or update
/// that would take the history over its limit fails it with `ChainTooLong`.
/// A walk that has ended stays as it is.
pub open spec fn stepped(trace: Trace, fetched: Result<Record, Error>) -> Trace {
    match trace {
        Trace::Walking { next, history, limit } => match fetched {
            Ok(record) => match record.action {
                Action::Update(update) => if history.len() < limit {
                    Trace::Walking {
                        next: update.original_action_address,
                        history: history.push((record.action_address, record.action)),
                        limit,
                    }
                } else {
                    Trace::Failed { error: Error::ChainTooLong }
                },
                Action::Create(_) => if history.len() < limit {
                    Trace::Origin { history: history.push((record.action_address, record.action)) }
                } else {
                    Trace::Failed { error: Error::ChainTooLong }
                },
                _ => Trace::Failed {
                    error: Error::WrongActionKindInChain {
                        actual: record.action.action_type_spec(),
                    },
                },
            },
            Err(error) => Trace::Failed { error },
        },
        _ => trace,
    }
}

/// The walk after the fetches of `log`, in their order.
pub open spec fn ran(trace: Trace, log: Seq<Result<Record, Error>>) -> Trace
    decreases log.len(),
{
    if log.len() == 0 {
        trace
    } else {
        stepped(ran(trace, log.drop_last()), log.last())
    }
}

/// Whether the answer at `index` of `log` is one that `fetch` may have given
/// to the walk that starts at `trace`: after the answers before it the walk
/// was still going, and `fetch` may answer so to the address it then asked for.
pub open spec fn answer_fits<F>(
    fetch: F,
    trace: Trace,
    log: Seq<Result<Record, Error>>,
    index: int,
) -> bool where F: Fn(ActionHash) -> Result<Record, Error> {
    match ran(trace, log.take(index)) {
        Trace::Walking { next, .. } => call_ensures(fetch, (next,), log[index]),
        _ => false,
    }
}

/// Whether `log` is a sequence of answers that `fetch` may have given to the
/// walk that starts at `trace`, one after the other.
pub open spec fn answered<F>(fetch: F, trace: Trace, log: Seq<Result<Record, Error>>) -> bool where
    F: Fn(ActionHash) -> Result<Record, Error>,
 {
    forall|index: int| 0 <= index < log.len() ==> #[trigger] answer_fits(fetch, trace, log, index)
}

/// Whether `traced` is what a walk that ended as `trace` returns: the history
/// at the origin, the error of a failed walk.
pub open spec fn is_outcome(trace: Trace, traced: Result<Vec<(ActionHash, Action)>, Error>) -> bool {
    match trace {
        Trace::Origin { history } => traced matches Ok(pairs) && pairs@ == history,
        Trace::Failed { error } => traced == Err::<Vec<(ActionHash, Action)>, Error>(error),
        Trace::Walking { .. } => false,
    }
}

/// Whether `root` is what a walk that ended as `trace` has as its last
/// action: the create at the origin, the error of a failed walk.
pub open spec fn is_root_outcome(trace: Trace, root: Result<(ActionHash, Action), Error>) -> bool {
    match trace {
        Trace::Origin { history } => history.len() > 0 && root == Ok::<
            (ActionHash, Action),
            Error,
        >(history.last()),
        Trace::Failed { error } => root == Err::<(ActionHash, Action), Error>(error),
        Trace::Walking { .. } => false,
    }
}

/// How many more fetches a walk can make at most.
pub open spec fn fetches_left(trace: Trace) -> int {
    match trace {
        Trace::Walking { history, limit, .. } => if history.len() < limit {
            limit - history.len() + 1
        } else {
            1
        },
        _ => 0,
    }
}

impl TraceState {
    /// The walk that is about to fetch the record at `action_address`.
    pub fn start(action_address: &ActionHash) -> (state: TraceState)
        ensures
            state@ == trace_from(*action_address),
            state@.wf(),
    {
        TraceState::start_within(action_address, usize::MAX)
    }

    /// The walk that is about to fetch the record at `action_address`, and
    /// that notes `limit` actions at most.
    pub fn start_within(action_address: &ActionHash, limit: usize) -> (state: TraceState)
        ensures
            state@ == trace_within(*action_address, limit),
            state@.wf(),
    {
        TraceState::Walking { next: *action_address, history: Vec::new(), limit }
    }

    /// The address whose record the walk asks for, while it is going.
    pub fn next_address(&self) -> (next: Option<ActionHash>)
        ensures
            next == match self@ {
                Trace::Walking { next, .. } => Some(next),
                _ => None,
            },
    {
        match self {
            TraceState::Walking { next, .. } => Some(*next),
            _ => None,
        }
    }

    /// Takes the answer to the fetch that the walk asked for.
    pub fn advance(self, fetched: Result<Record, Error>) -> (state: TraceState)
        ensures
            state@ == stepped(self@, fetched),
            self@.wf() ==> state@.wf(),
    {
        proof {
            if self@.wf() {
                law_step_keeps_walk_well_formed(self@, fetched);
            }
        }
        match self {
            TraceState::Walking { next, history, limit } => match fetched {
                Ok(record) => match record.action {
                    Action::Update(update) => TraceState::note(
                        history,
                        limit,
                        record.action_address,
                        record.action,
                        Some(update.original_action_address),
                    ),
                    Action::Create(_) => TraceState::note(
                        history,
                        limit,
                        record.action_address,
                        record.action,
                        None,
                    ),
                    _ => TraceState::Failed {
                        error: Error::WrongActionKindInChain { actual: record.action.action_type() },
                    },
                },
                Err(error) => TraceState::Failed { error },
            },
            finished => finished,
        }
    }

    /// Adds one action to a history that is within its limit, and goes on at
    /// `next` or ends at the origin where there is none.
    fn note(
        history: Vec<(ActionHash, Action)>,
        limit: usize,
        address: ActionHash,
        action: Action,
        next: Option<ActionHash>,
    ) -> (state: TraceState)
        ensures
            state@ == if history@.len() < limit {
                match next {
                    Some(next) => Trace::Walking {
                        next,
                        history: history@.push((address, action)),
                        limit,
                    },
                    None => Trace::Origin { history: history@.push((address, action)) },
                }
            } else {
                Trace::Failed { error: Error::ChainTooLong }
            },
    {
        let mut history = history;
        if history.len() < limit {
            history.push((address, action));
            match next {
                Some(next) => TraceState::Walking { next, history, limit },
                None => TraceState::Origin { history },
            }
        } else {
            TraceState::Failed { error: Error::ChainTooLong }
        }
    }

    /// What the walk returns, once it has ended; nothing while it is going.
    pub fn finish(self) -> (traced: Option<Result<Vec<(ActionHash, Action)>, Error>>)
        ensures
            match self@ {
                Trace::Walking { .. } => traced is None,
                finished => traced matches Some(outcome) && is_outcome(finished, outcome),
            },
            self@.wf() ==> (traced matches Some(Ok(history)) ==> is_revision_history(history@)),
    {
        match self {
            TraceState::Walking { .. } => None,
            TraceState::Origin { history } => Some(Ok(history)),
            TraceState::Failed { error } => Some(Err(error)),
        }
    }
}

/// A step keeps a walk well-formed.
pub proof fn law_step_keeps_walk_well_formed(trace: Trace, fetched: Result<Record, Error>)
    requires
        trace.wf(),
    ensures
        stepped(trace, fetched).wf(),
{
    if let Trace::Walking { next, history, limit } = trace {
        if let Ok(record) = fetched {
            let longer = history.push((record.action_address, record.action));
            assert forall|i: int| 0 <= i < longer.len() - 1 implies (#[trigger] longer[i]).1
                is Update by {
                assert(longer[i] == history[i]);
            }
        }
    }
}

/// Any number of steps keep a walk well-formed: whatever a walk from a start
/// returns at its origin is the history of a whole walk.
pub proof fn law_steps_keep_walk_well_formed(trace: Trace, log: Seq<Result<Record, Error>>)
    requires
        trace.wf(),
    ensures
        ran(trace, log).wf(),
    decreases log.len(),
{
    if log.len() > 0 {
        law_steps_keep_walk_well_formed(trace, log.drop_last());
        law_step_keeps_walk_well_formed(ran(trace, log.drop_last()), log.last());
    }
}

/// One more answer takes the walk one step further.
proof fn lemma_ran_push(trace: Trace, log: Seq<Result<Record, Error>>, fetched: Result<Record, Error>)
    ensures
        ran(trace, log.push(fetched)) == stepped(ran(trace, log), fetched),
{
    assert(log.push(fetched).drop_last() =~= log);
    assert(log.push(fetched).last() == fetched);
}

/// An answer to the address that a walk asks for keeps its log a log of
/// answers, and takes the walk one step further.
proof fn lemma_answered_push<F>(
    fetch: F,
    trace: Trace,
    log: Seq<Result<Record, Error>>,
    fetched: Result<Record, Error>,
) where F: Fn(ActionHash) -> Result<Record, Error>
    requires
        answered(fetch, trace, log),
        ran(trace, log) matches Trace::Walking { next, .. } && call_ensures(
            fetch,
            (next,),
            fetched,
        ),
    ensures
        answered(fetch, trace, log.push(fetched)),
        ran(trace, log.push(fetched)) == stepped(ran(trace, log), fetched),
{
    let longer = log.push(fetched);
    lemma_ran_push(trace, log, fetched);
    assert forall|index: int| 0 <= index < longer.len() implies #[trigger] answer_fits(
        fetch,
        trace,
        longer,
        index,
    ) by {
        if index < log.len() {
            assert(answer_fits(fetch, trace, log, index));
            assert(longer.take(index) =~= log.take(index));
        } else {
            assert(longer.take(index) =~= log);
        }
    }
}

/// Collects the chain of revisions backwards, from the action at
/// `action_address` to the create that it goes back to, and gives up with
/// `ChainTooLong` on a chain of more than `limit` actions.
///
/// There is a sequence of answers of `fetch` that takes the walk from
/// `action_address` to its end, and the result is the outcome of that walk.
pub fn trace_origin_within<F>(action_address: &ActionHash, limit: usize, fetch: F) -> (traced:
    Result<Vec<(ActionHash, Action)>, Error>) where F: Fn(ActionHash) -> Result<Record, Error>
    requires
        forall|address: ActionHash| call_requires(fetch, (address,)),
    ensures
        exists|log: Seq<Result<Record, Error>>|
            #![auto]
            answered(fetch, trace_within(*action_address, limit), log) && is_outcome(
                ran(trace_within(*action_address, limit), log),
                traced,
            ),
        traced matches Ok(history) ==> is_revision_history(history@) && history@.len() <= limit,
{
    let mut state = TraceState::start_within(action_address, limit);
    let ghost mut log: Seq<Result<Record, Error>> = Seq::empty();
    loop
        invariant
            forall|address: ActionHash| call_requires(fetch, (address,)),
            state@ == ran(trace_within(*action_address, limit), log),
            answered(fetch, trace_within(*action_address, limit), log),
            state@.wf(),
            state@ matches Trace::Origin { history } ==> history.len() <= limit,
            state@ matches Trace::Walking { limit: within, .. } ==> within == limit,
        decreases fetches_left(state@),
    {
        match state {
            TraceState::Walking { next, history, limit: within } => {
                let fetched = fetch(next);
                proof {
                    lemma_answered_push(fetch, trace_within(*action_address, limit), log, fetched);
                    log = log.push(fetched);
                }
                state = TraceState::Walking { next, history, limit: within }.advance(fetched);
            },
            TraceState::Origin { history } => {
                return Ok(history);
            },
            TraceState::Failed { error } => {
                return Err(error);
            },
        }
    }
}

/// Collects the chain of revisions backwards, from the action at
/// `action_address` to the create that it goes back to.
///
/// There is a sequence of answers of `fetch` that takes the walk from
/// `action_address` to its end, and the result is the outcome of that walk.
pub fn trace_origin<F>(action_address: &ActionHash, fetch: F) -> (traced: Result<
    Vec<(ActionHash, Action)>,
    Error,
>) where F: Fn(ActionHash) -> Result<Record, Error>
    requires
        forall|address: ActionHash| call_requires(fetch, (address,)),
    ensures
        exists|log: Seq<Result<Record, Error>>|
            #![auto]
            answered(fetch, trace_from(*action_address), log) && is_outcome(
                ran(trace_from(*action_address), log),
                traced,
            ),
        traced matches Ok(history) ==> is_revision_history(history@),
{
    trace_origin_within(action_address, usize::MAX, fetch)
}

/// A walk that its answers took to the origin has noted at least one action.
proof fn lemma_origin_is_not_empty<F>(fetch: F, trace: Trace, log: Seq<Result<Record, Error>>) where
    F: Fn(ActionHash) -> Result<Record, Error>,

    requires
        trace is Walking,
        answered(fetch, trace, log),
    ensures
        ran(trace, log) matches Trace::Origin { history } ==> history.len() > 0,
{
    if log.len() > 0 {
        let last = log.len() - 1;
        assert(log.take(last) =~= log.drop_last());
        assert(answer_fits(fetch, trace, log, last));
    }
}

/// The last item of what [`trace_origin`] collects: the create that the
/// chain began with.
pub fn trace_origin_root<F>(action_address: &ActionHash, fetch: F) -> (root: Result<
    (ActionHash, Action),
    Error,
>) where F: Fn(ActionHash) -> Result<Record, Error>
    requires
        forall|address: ActionHash| call_requires(fetch, (address,)),
    ensures
        exists|log: Seq<Result<Record, Error>>|
            #![auto]
            answered(fetch, trace_from(*action_address), log) && is_root_outcome(
                ran(trace_from(*action_address), log),
                root,
            ),
        root matches Ok(pair) ==> pair.1 is Create,
{
    match trace_origin(action_address, fetch) {
        Ok(history) => {
            let ghost log = choose|log: Seq<Result<Record, Error>>|
                #![auto]
                answered(fetch, trace_from(*action_address), log) && is_outcome(
                    ran(trace_from(*action_address), log),
                    Ok::<Vec<(ActionHash, Action)>, Error>(history),
                );
            proof {
                lemma_origin_is_not_empty(fetch, trace_from(*action_address), log);
            }
            let root = history[history.len() - 1];
            assert(is_root_outcome(
                ran(trace_from(*action_address), log),
                Ok::<(ActionHash, Action), Error>(root),
            ));
            Ok(root)
        },
        Err(error) => Err(error),
    }
}

/// Whether the record at `index` holds an update that replaces the action of
/// the record after it.
pub open spec fn replaces_next(chain: Seq<Record>, index: int) -> bool {
    chain[index].action matches Action::Update(update) && update.original_action_address
        == chain[index + 1].action_address
}

/// Whether the records are linked as revisions: every record but the last
/// holds an update that replaces the action of the record after it.
pub open spec fn is_linked(chain: Seq<Record>) -> bool {
    forall|index: int| 0 <= index < chain.len() - 1 ==> #[trigger] replaces_next(chain, index)
}

/// Whether the records are a revision chain: linked updates, the newest in
/// front, that end in a create.
pub open spec fn is_revision_chain(chain: Seq<Record>) -> bool {
    &&& chain.len() > 0
    &&& is_linked(chain)
    &&& chain.last().action is Create
}

/// Whether `fetch` answers the address of each record of `chain` with that
/// record and nothing else.
pub open spec fn serves<F>(fetch: F, chain: Seq<Record>) -> bool where
    F: Fn(ActionHash) -> Result<Record, Error>,
 {
    forall|i: int, fetched: Result<Record, Error>|
        #![trigger chain[i], call_ensures(fetch, (chain[i].action_address,), fetched)]
        0 <= i < chain.len() && call_ensures(fetch, (chain[i].action_address,), fetched)
            ==> fetched == Ok::<Record, Error>(chain[i])
}

/// The history that a walk notes of the records it has visited.
pub open spec fn noted(chain: Seq<Record>) -> Seq<(ActionHash, Action)> {
    Seq::new(chain.len(), |i: int| (chain[i].action_address, chain[i].action))
}

/// After `steps` answers, a walk along a served chain has noted the first
/// `steps` records and asks for the next one.
proof fn lemma_walk_follows_chain<F>(
    fetch: F,
    chain: Seq<Record>,
    log: Seq<Result<Record, Error>>,
    limit: usize,
    steps: int,
) where F: Fn(ActionHash) -> Result<Record, Error>
    requires
        is_linked(chain),
        serves(fetch, chain),
        answered(fetch, trace_within(chain[0].action_address, limit), log),
        0 <= steps < chain.len(),
        steps <= log.len(),
        steps <= limit,
    ensures
        ran(trace_within(chain[0].action_address, limit), log.take(steps)) == (Trace::Walking {
            next: chain[steps].action_address,
            history: noted(chain.take(steps)),
            limit,
        }),
    decreases steps,
{
    let start = trace_within(chain[0].action_address, limit);
    if steps == 0 {
        assert(log.take(0).len() == 0);
        assert(noted(chain.take(0)) =~= Seq::empty());
    } else {
        let before = steps - 1;
        lemma_walk_follows_chain(fetch, chain, log, limit, before);
        let fetched = log[before];
        assert(replaces_next(chain, before));
        assert(answer_fits(fetch, start, log, before));
        assert(call_ensures(fetch, (chain[before].action_address,), fetched));
        assert(fetched == Ok::<Record, Error>(chain[before]));
        assert(log.take(steps).drop_last() =~= log.take(before));
        assert(log.take(steps).last() == fetched);
        assert(noted(chain.take(before)).push((chain[before].action_address, chain[before].action))
            =~= noted(chain.take(steps)));
    }
}

/// A walk along a served chain that ends with the last record takes as many
/// answers as the chain has records, and its last answer is the last record.
proof fn lemma_walk_ends_with_chain<F>(
    fetch: F,
    chain: Seq<Record>,
    log: Seq<Result<Record, Error>>,
    limit: usize,
) where F: Fn(ActionHash) -> Result<Record, Error>
    requires
        chain.len() > 0,
        chain.len() <= limit + 1,
        is_linked(chain),
        !(chain.last().action is Update) || chain.len() == limit + 1,
        serves(fetch, chain),
        answered(fetch, trace_within(chain[0].action_address, limit), log),
        !(ran(trace_within(chain[0].action_address, limit), log) is Walking),
    ensures
        log.len() == chain.len(),
        ran(trace_within(chain[0].action_address, limit), log) == stepped(
            Trace::Walking {
                next: chain.last().action_address,
                history: noted(chain.drop_last()),
                limit,
            },
            Ok(chain.last()),
        ),
{
    let start = trace_within(chain[0].action_address, limit);
    let last = chain.len() - 1;
    if log.len() <= last {
        lemma_walk_follows_chain(fetch, chain, log, limit, log.len() as int);
        assert(log.take(log.len() as int) =~= log);
    } else {
        lemma_walk_follows_chain(fetch, chain, log, limit, last);
        let fetched = log[last];
        assert(answer_fits(fetch, start, log, last));
        assert(call_ensures(fetch, (chain[last].action_address,), fetched));
        assert(fetched == Ok::<Record, Error>(chain[last]));
        assert(log.take(last + 1).drop_last() =~= log.take(last));
        assert(log.take(last + 1).last() == fetched);
        assert(chain.take(last) =~= chain.drop_last());
        assert(noted(chain.drop_last()).len() == last);
        if log.len() > last + 1 {
            assert(answer_fits(fetch, start, log, last + 1));
        } else {
            assert(log.take(last + 1) =~= log);
        }
    }
}

/// Tracing a chain of one create and any number of updates, each replacing
/// the one before it, gives one pair for each of them, and the last pair is
/// the create.
///
/// `log` stands for the answers that the walk from the head of the chain got:
/// [`trace_origin_within`] promises such a log for its result, and
/// [`trace_origin`] one for the limit `usize::MAX`. The walk must be allowed
/// as many actions as the chain has.
pub proof fn law_chain_is_traced_to_its_create<F>(
    fetch: F,
    chain: Seq<Record>,
    log: Seq<Result<Record, Error>>,
    limit: usize,
) where F: Fn(ActionHash) -> Result<Record, Error>
    requires
        is_revision_chain(chain),
        chain.len() <= limit,
        serves(fetch, chain),
        answered(fetch, trace_within(chain[0].action_address, limit), log),
        !(ran(trace_within(chain[0].action_address, limit), log) is Walking),
    ensures
        ran(trace_within(chain[0].action_address, limit), log) == (Trace::Origin {
            history: noted(chain),
        }),
        noted(chain).len() == chain.len(),
        noted(chain).last() == (chain.last().action_address, chain.last().action),
        noted(chain).last().1 is Create,
{
    lemma_walk_ends_with_chain(fetch, chain, log, limit);
    assert(noted(chain.drop_last()).push((chain.last().action_address, chain.last().action))
        =~= noted(chain));
}

/// Tracing a run of linked updates that leads to an action which is neither
/// a create nor an update fails with `WrongActionKindInChain`, wherever in
/// the run that action stands, and gives no part of the history.
pub proof fn law_wrong_action_fails_the_trace<F>(
    fetch: F,
    chain: Seq<Record>,
    log: Seq<Result<Record, Error>>,
    limit: usize,
) where F: Fn(ActionHash) -> Result<Record, Error>
    requires
        chain.len() > 0,
        chain.len() <= limit + 1,
        is_linked(chain),
        !(chain.last().action is Update),
        !(chain.last().action is Create),
        serves(fetch, chain),
        answered(fetch, trace_within(chain[0].action_address, limit), log),
        !(ran(trace_within(chain[0].action_address, limit), log) is Walking),
    ensures
        ran(trace_within(chain[0].action_address, limit), log) == (Trace::Failed {
            error: Error::WrongActionKindInChain {
                actual: chain.last().action.action_type_spec(),
            },
        }),
        forall|traced: Result<Vec<(ActionHash, Action)>, Error>|
            is_outcome(ran(trace_within(chain[0].action_address, limit), log), traced)
                ==> traced is Err,
{
    lemma_walk_ends_with_chain(fetch, chain, log, limit);
}

/// Tracing a run of linked updates and creates that has one action more than
/// the walk is allowed fails with `ChainTooLong`.
pub proof fn law_long_chain_is_given_up<F>(
    fetch: F,
    chain: Seq<Record>,
    log: Seq<Result<Record, Error>>,
    limit: usize,
) where F: Fn(ActionHash) -> Result<Record, Error>
    requires
        chain.len() == limit + 1,
        is_linked(chain),
        chain.last().action is Update || chain.last().action is Create,
        serves(fetch, chain),
        answered(fetch, trace_within(chain[0].action_address, limit), log),
        !(ran(trace_within(chain[0].action_address, limit), log) is Walking),
    ensures
        ran(trace_within(chain[0].action_address, limit), log) == (Trace::Failed {
            error: Error::ChainTooLong,
        }),
{
    lemma_walk_ends_with_chain(fetch, chain, log, limit);
    assert(noted(chain.drop_last()).len() == limit);
}

/// The address that a walk from `head` asks for once it has noted all of
/// `updates`: the action that the last of them replaces, or `head` itself
/// where there is none.
pub open spec fn asked_after(head: ActionHash, updates: Seq<Record>) -> ActionHash {
    if updates.len() == 0 {
        head
    } else {
        match updates.last().action {
            Action::Update(update) => update.original_action_address,
            _ => head,
        }
    }
}

/// Tracing a run of linked updates that leads to an address which the store
/// answers with a failure fails with that failure, wherever in the run the
/// address stands, the head of the run included.
pub proof fn law_failed_fetch_fails_the_trace<F>(
    fetch: F,
    head: ActionHash,
    updates: Seq<Record>,
    error: Error,
    log: Seq<Result<Record, Error>>,
    limit: usize,
) where F: Fn(ActionHash) -> Result<Record, Error>
    requires
        updates.len() <= limit,
        updates.len() > 0 ==> updates[0].action_address == head && updates.last().action is Update,
        is_linked(updates),
        serves(fetch, updates),
        forall|fetched: Result<Record, Error>|
            call_ensures(fetch, (asked_after(head, updates),), fetched) ==> fetched == Err::<
                Record,
                Error,
            >(error),
        answered(fetch, trace_within(head, limit), log),
        !(ran(trace_within(head, limit), log) is Walking),
    ensures
        ran(trace_within(head, limit), log) == (Trace::Failed { error }),
{
    let start = trace_within(head, limit);
    let count = updates.len() as int;
    // The walk after the answers for all of `updates`.
    let before = Trace::Walking { next: asked_after(head, updates), history: noted(updates), limit };
    if log.len() >= count {
        if count == 0 {
            assert(log.take(0).len() == 0);
            assert(noted(updates) =~= Seq::empty());
        } else {
            let last = count - 1;
            lemma_walk_follows_chain(fetch, updates, log, limit, last);
            assert(answer_fits(fetch, start, log, last));
            assert(log[last] == Ok::<Record, Error>(updates[last]));
            assert(log.take(count).drop_last() =~= log.take(last));
            assert(log.take(count).last() == log[last]);
            assert(noted(updates.take(last)).push(
                (updates[last].action_address, updates[last].action),
            ) =~= noted(updates));
        }
        assert(ran(start, log.take(count)) == before);
    }
    if log.len() <= count {
        if log.len() < count {
            lemma_walk_follows_chain(fetch, updates, log, limit, log.len() as int);
        }
        assert(log.take(log.len() as int) =~= log);
    } else {
        assert(answer_fits(fetch, start, log, count));
        assert(log[count] == Err::<Record, Error>(error));
        assert(log.take(count + 1).drop_last() =~= log.take(count));
        assert(log.take(count + 1).last() == log[count]);
        if log.len() > count + 1 {
            assert(answer_fits(fetch, start, log, count + 1));
        } else {
            assert(log.take(count + 1) =~= log);
        }
    }
}

} // verus!
