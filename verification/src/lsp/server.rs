//! The order in which requests to the compiler are handled.
//!
//! Regular requests (like hover or completions) are handled before diagnostic
//! requests, to respond to the user as fast as possible. Diagnostic requests are
//! not queued up: a new one takes over what an earlier one asked for.
use vstd::prelude::*;
use crate::lsp::request::RequestMethod;
use crate::text::str_eq;

verus! {

/// What the loop that serves the compiler does next.
#[derive(Debug)]
pub enum Action<R, D> {
    /// Handle a regular request.
    Handle(R),
    /// See whether a regular request is queued, without waiting.
    PollQueue,
    /// Take the diagnostic request that is pending, if there is one.
    TakeDiagnostics,
    /// Handle a diagnostic request.
    HandleDiagnostics(D),
    /// Wait for a regular request or for notice of a diagnostic one.
    Wait,
    /// Stop.
    Stop,
}

/// What came of the last action.
#[derive(Debug)]
pub enum Event<R, D> {
    /// The regular request was handled.
    Handled,
    /// A regular request was queued; none, where the queue is closed.
    Queued(Option<R>),
    /// No regular request is queued.
    NothingQueued,
    /// The diagnostic request that was pending, if there was one.
    Taken(Option<D>),
    /// The diagnostic request was handled.
    DiagnosticsHandled,
    /// There is notice of a diagnostic request; none, where the channel for
    /// notices is closed.
    Noticed(bool),
}

/// What is done first.
pub open spec fn first_action<R, D>() -> Action<R, D> {
    Action::PollQueue
}

/// What is done first.
pub fn first<R, D>() -> (r: Action<R, D>)
    ensures
        r == first_action::<R, D>(),
{
    Action::PollQueue
}

/// What is done after an event.
pub open spec fn next_action<R, D>(event: Event<R, D>) -> Action<R, D> {
    match event {
        Event::Handled => Action::PollQueue,
        Event::Queued(Some(request)) => Action::Handle(request),
        Event::Queued(None) => Action::Stop,
        Event::NothingQueued => Action::TakeDiagnostics,
        Event::Taken(Some(diagnostics)) => Action::HandleDiagnostics(diagnostics),
        Event::Taken(None) => Action::Wait,
        Event::DiagnosticsHandled => Action::Wait,
        Event::Noticed(open) => if open {
            Action::PollQueue
        } else {
            Action::Stop
        },
    }
}

/// What is done after an event.
pub fn next<R, D>(event: Event<R, D>) -> (r: Action<R, D>)
    ensures
        r == next_action(event),
{
    match event {
        Event::Handled => Action::PollQueue,
        Event::Queued(Some(request)) => Action::Handle(request),
        Event::Queued(None) => Action::Stop,
        Event::NothingQueued => Action::TakeDiagnostics,
        Event::Taken(Some(diagnostics)) => Action::HandleDiagnostics(diagnostics),
        Event::Taken(None) => Action::Wait,
        Event::DiagnosticsHandled => Action::Wait,
        Event::Noticed(open) => if open {
            Action::PollQueue
        } else {
            Action::Stop
        },
    }
}

/// An event can come of an action.
pub open spec fn can_follow<R, D>(action: Action<R, D>, event: Event<R, D>) -> bool {
    match action {
        Action::Handle(_) => event is Handled,
        Action::PollQueue => event is Queued || event is NothingQueued,
        Action::TakeDiagnostics => event is Taken,
        Action::HandleDiagnostics(_) => event is DiagnosticsHandled,
        Action::Wait => event is Queued || event is Noticed,
        Action::Stop => false,
    }
}

/// A run of the loop: every event comes of the action before it.
pub open spec fn is_run<R, D>(events: Seq<Event<R, D>>) -> bool {
    forall|i: int|
        0 <= i < events.len() ==> can_follow(
            if i == 0 {
                first_action()
            } else {
                next_action(events[i - 1])
            },
            #[trigger] events[i],
        )
}

/// A request that comes out of the queue is the next thing that is handled.
pub proof fn law_queued_request_is_handled_next<R, D>(request: R)
    ensures
        next_action(Event::<R, D>::Queued(Some(request))) == Action::<R, D>::Handle(request),
{
}

/// Diagnostics are handled only when the queue of regular requests was found
/// empty just before.
pub proof fn law_diagnostics_wait_for_requests<R, D>(events: Seq<Event<R, D>>, i: int)
    requires
        is_run(events),
        0 <= i < events.len(),
        next_action(events[i]) is HandleDiagnostics,
    ensures
        i > 0,
        events[i - 1] is NothingQueued,
{
    assert(can_follow(
        if i == 0 {
            first_action()
        } else {
            next_action(events[i - 1])
        },
        events[i],
    ));
}

/// The loop never waits without having looked for diagnostics since it last
/// found the queue empty: so notice of diagnostics is never slept through.
pub proof fn law_no_wait_before_diagnostics<R, D>(events: Seq<Event<R, D>>, i: int)
    requires
        is_run(events),
        0 <= i < events.len(),
        next_action(events[i]) is Wait,
    ensures
        events[i] is Taken || (i > 0 && events[i] is DiagnosticsHandled && events[i - 1] is Taken),
{
    assert(can_follow(
        if i == 0 {
            first_action()
        } else {
            next_action(events[i - 1])
        },
        events[i],
    ));
}

/// The loop stops only where a channel is closed, and nothing follows.
pub proof fn law_stops_only_when_closed<R, D>(events: Seq<Event<R, D>>, i: int)
    requires
        is_run(events),
        0 <= i < events.len(),
        next_action(events[i]) is Stop,
    ensures
        events[i] == Event::<R, D>::Queued(None) || events[i] == Event::<R, D>::Noticed(false),
        i == events.len() - 1,
{
    if i + 1 < events.len() {
        assert(can_follow(next_action(events[i]), events[i + 1]));
    }
}

/// A diagnostic request that is pending: the modules it is for, what was known
/// when it was made, and whom to answer.
pub struct PendingDiagnostics<S, T> {
    pub specifiers: Vec<String>,
    pub snapshot: S,
    pub reply: T,
}

/// The specifiers in a list.
pub open spec fn specifier_set(list: Seq<String>) -> Set<Seq<char>> {
    Set::new(|s: Seq<char>| exists|i: int| 0 <= i < list.len() && #[trigger] list[i]@ == s)
}

/// No specifier is in the list twice.
pub open spec fn no_duplicates(list: Seq<String>) -> bool {
    forall|i: int, j: int| 0 <= i < j < list.len() ==> list[i]@ != list[j]@
}

/// Puts a specifier into a list that does not have it yet.
fn put_specifier(list: &mut Vec<String>, specifier: String)
    requires
        no_duplicates(old(list)@),
    ensures
        no_duplicates(final(list)@),
        specifier_set(final(list)@) == specifier_set(old(list)@).insert(specifier@),
{
    let ghost before = list@;
    let mut i: usize = 0;
    while i < list.len()
        invariant
            i <= list@.len(),
            list@ == before,
            no_duplicates(before),
            forall|j: int| 0 <= j < i ==> list@[j]@ != specifier@,
        decreases list.len() - i,
    {
        if str_eq(list[i].as_str(), specifier.as_str()) {
            proof {
                assert(list@[i as int]@ == specifier@);
                assert(specifier_set(list@) =~= specifier_set(before).insert(specifier@));
            }
            return;
        }
        i = i + 1;
    }
    list.push(specifier);
    proof {
        let after = list@;
        let expected = specifier_set(before).insert(specifier@);
        assert forall|s: Seq<char>| #[trigger]
            specifier_set(after).contains(s) == expected.contains(s) by {
            if specifier_set(before).contains(s) {
                let k = choose|k: int| 0 <= k < before.len() && #[trigger] before[k]@ == s;
                assert(after[k]@ == s);
            }
            if specifier_set(after).contains(s) {
                let k = choose|k: int| 0 <= k < after.len() && #[trigger] after[k]@ == s;
                if k < before.len() {
                    assert(before[k]@ == s);
                }
            }
            assert(after[before.len() as int]@ == specifier@);
        }
        assert(specifier_set(after) =~= expected);
    }
}

/// The modules of an optional request.
pub open spec fn pending_set<S, T>(pending: Option<PendingDiagnostics<S, T>>) -> Set<Seq<char>> {
    match pending {
        Some(pending) => specifier_set(pending.specifiers@),
        None => Set::empty(),
    }
}

/// Makes a diagnostic request. It takes over the modules of a request that is
/// still pending; the one who waits for that is handed back, to be told that
/// there is no answer.
pub fn diagnostics_request<S, T>(
    pending: Option<PendingDiagnostics<S, T>>,
    snapshot: S,
    specifiers: Vec<String>,
    reply: T,
) -> (r: (PendingDiagnostics<S, T>, Option<T>))
    requires
        pending matches Some(p) ==> no_duplicates(p.specifiers@),
    ensures
        no_duplicates(r.0.specifiers@),
        specifier_set(r.0.specifiers@) == pending_set(pending).union(specifier_set(specifiers@)),
        r.0.snapshot == snapshot,
        r.0.reply == reply,
        r.1 == match pending {
            Some(p) => Some(p.reply),
            None => None,
        },
{
    let ghost start = pending_set(pending);
    let (mut set, superseded): (Vec<String>, Option<T>) = match pending {
        Some(p) => (p.specifiers, Some(p.reply)),
        None => (Vec::new(), None),
    };
    let mut i: usize = 0;
    proof {
        assert(specifier_set(set@) =~= start);
        assert(specifier_set(specifiers@.take(0)) =~= Set::empty());
        assert(specifier_set(set@) =~= start.union(specifier_set(specifiers@.take(0))));
    }
    while i < specifiers.len()
        invariant
            i <= specifiers@.len(),
            no_duplicates(set@),
            specifier_set(set@) == start.union(specifier_set(specifiers@.take(i as int))),
        decreases specifiers.len() - i,
    {
        proof {
            lemma_specifier_set_take(specifiers@, i as int);
        }
        put_specifier(&mut set, specifiers[i].clone());
        i = i + 1;
        assert(specifier_set(set@) =~= start.union(specifier_set(specifiers@.take(i as int))));
    }
    assert(specifiers@.take(i as int) =~= specifiers@);
    (PendingDiagnostics { specifiers: set, snapshot, reply }, superseded)
}

/// One more specifier of a list.
proof fn lemma_specifier_set_take(list: Seq<String>, i: int)
    requires
        0 <= i < list.len(),
    ensures
        specifier_set(list.take(i + 1)) == specifier_set(list.take(i)).insert(list[i]@),
{
    let before = list.take(i);
    let after = list.take(i + 1);
    assert forall|s: Seq<char>| #[trigger]
        specifier_set(after).contains(s) == specifier_set(before).insert(list[i]@).contains(s) by {
        if specifier_set(before).contains(s) {
            let k = choose|k: int| 0 <= k < before.len() && #[trigger] before[k]@ == s;
            assert(after[k]@ == s);
        }
        if specifier_set(after).contains(s) {
            let k = choose|k: int| 0 <= k < after.len() && #[trigger] after[k]@ == s;
            if k < i {
                assert(before[k]@ == s);
            }
        }
        assert(after[i]@ == list[i]@);
    }
    assert(specifier_set(after) =~= specifier_set(before).insert(list[i]@));
}

/// The request that is sent to the compiler for pending diagnostics.
pub fn diagnostics_method<S, T>(pending: PendingDiagnostics<S, T>) -> (r: (RequestMethod, S, T))
    ensures
        r.0 == RequestMethod::GetDiagnostics(pending.specifiers),
        r.1 == pending.snapshot,
        r.2 == pending.reply,
{
    (RequestMethod::GetDiagnostics(pending.specifiers), pending.snapshot, pending.reply)
}

/// What follows what: after a request, and on notice of diagnostics, the queue is
/// looked at; where it is empty, diagnostics are taken, and those that are taken are
/// handled; where there are none, and after them, the loop waits. A closed channel
/// ends it.
pub proof fn law_order_of_actions<R, D>(request: R, diagnostics: D)
    ensures
        first_action::<R, D>() is PollQueue,
        next_action(Event::<R, D>::Handled) is PollQueue,
        next_action(Event::<R, D>::Noticed(true)) is PollQueue,
        next_action(Event::<R, D>::NothingQueued) is TakeDiagnostics,
        next_action(Event::<R, D>::Queued(Some(request))) matches Action::Handle(r) && r == request,
        next_action(Event::<R, D>::Taken(Some(diagnostics))) matches Action::HandleDiagnostics(d)
            && d == diagnostics,
        next_action(Event::<R, D>::Taken(None)) is Wait,
        next_action(Event::<R, D>::DiagnosticsHandled) is Wait,
        next_action(Event::<R, D>::Queued(None)) is Stop,
        next_action(Event::<R, D>::Noticed(false)) is Stop,
{
}

/// The specifiers of a list are those that are in it, and no others.
pub proof fn law_specifiers_of_a_list(list: Seq<String>, i: int)
    requires
        0 <= i < list.len(),
    ensures
        specifier_set(list).contains(list[i]@),
        forall|s: Seq<char>| #[trigger]
            specifier_set(list).contains(s) ==> exists|j: int|
                0 <= j < list.len() && (#[trigger] list[j])@ == s,
        no_duplicates(list) ==> forall|j: int|
            0 <= j < list.len() && (#[trigger] list[j])@ == list[i]@ ==> j == i,
{
    if no_duplicates(list) {
        assert forall|j: int|
            0 <= j < list.len() && (#[trigger] list[j])@ == list[i]@ implies j == i by {
            if j < i {
                assert(list[j]@ != list[i]@);
            } else if i < j {
                assert(list[i]@ != list[j]@);
            }
        }
    }
}

/// The modules of a pending request are those that it names; without one there are
/// none.
pub proof fn law_pending_modules<S, T>(pending: PendingDiagnostics<S, T>, s: Seq<char>)
    ensures
        pending_set(Some(pending)).contains(s) <==> exists|i: int|
            0 <= i < pending.specifiers@.len() && (#[trigger] pending.specifiers@[i])@ == s,
        !pending_set(None::<PendingDiagnostics<S, T>>).contains(s),
{
}

} // verus!
