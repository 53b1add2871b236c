//! What holds of the dispatcher over whole runs of calls.
//!
//! A run is the sequence of calls in the order in which the dispatcher
//! serves them. Calls that are in flight together are served one after the
//! other, in some order; what is proved of every run therefore holds of
//! every interleaving.

use vstd::prelude::*;
use crate::allocator::resolved_id;
use crate::allocator::successor;
use crate::events::UIEventView;
use crate::forwarder::delivered_after;
use crate::notification::replaces_id_of;
use crate::notification_server::serve;
use crate::schema::conforms_to;
use crate::schema::method_of;
use crate::schema::notify_kinds;
use crate::schema::reply_kinds;
use crate::schema::server_information;
use crate::schema::Method;
use crate::schema::ValueView;

verus! {

/// One inbound call.
pub struct Call {
    pub method_name: Seq<char>,
    pub parameters: Seq<ValueView>,
}

impl Call {
    /// A `Notify` call whose arguments conform to the schema.
    pub open spec fn is_notify(self) -> bool {
        &&& method_of(self.method_name) == Some(Method::Notify)
        &&& conforms_to(self.parameters, notify_kinds())
    }

    /// A call that moves the counter on: `Notify` with no id to replace.
    pub open spec fn takes_fresh_id(self) -> bool {
        method_of(self.method_name) == Some(Method::Notify) && replaces_id_of(self.parameters) == 0
    }

    /// A `Notify` call that asks for a new id.
    pub open spec fn asks_fresh_id(self) -> bool {
        self.is_notify() && replaces_id_of(self.parameters) == 0
    }
}

/// Number of ids that can be handed out before one comes again: every
/// 32-bit value but zero.
pub open spec fn cycle() -> int {
    0xffff_ffff
}

/// The allocator's counter when the `k`-th call of the run is served.
/// `counter` is where it stands before the first.
pub open spec fn counter_before(counter: u32, calls: Seq<Call>, k: nat) -> u32
    decreases k,
{
    if k == 0 {
        counter
    } else {
        let previous = calls[k - 1];
        serve(
            counter_before(counter, calls, (k - 1) as nat),
            previous.method_name,
            previous.parameters,
        ).counter
    }
}

/// The reply to the `k`-th call of the run.
pub open spec fn reply_at(counter: u32, calls: Seq<Call>, k: nat) -> Option<Seq<ValueView>> {
    serve(counter_before(counter, calls, k), calls[k as int].method_name, calls[k as int].parameters).reply
}

/// The event that the `k`-th call of the run yields.
pub open spec fn event_at(counter: u32, calls: Seq<Call>, k: nat) -> Option<UIEventView> {
    serve(counter_before(counter, calls, k), calls[k as int].method_name, calls[k as int].parameters).event
}

/// The `n`-th fresh id counted from `counter`: the ids run up to
/// `u32::MAX` and start again at `1`.
pub open spec fn nth_fresh_id(counter: u32, n: nat) -> u32 {
    (((counter - 1 + n) % cycle()) + 1) as u32
}

/// The ids follow each other: the next one is the successor of the last.
pub proof fn lemma_nth_fresh_id_steps(counter: u32, n: nat)
    requires
        counter != 0,
    ensures
        nth_fresh_id(counter, 0) == counter,
        nth_fresh_id(counter, n) != 0,
        nth_fresh_id(counter, n + 1) == successor(nth_fresh_id(counter, n)),
{
}

/// No id comes twice within one cycle.
pub proof fn lemma_nth_fresh_id_distinct(counter: u32, i: nat, j: nat)
    requires
        counter != 0,
        i < j < i + cycle(),
    ensures
        nth_fresh_id(counter, i) != nth_fresh_id(counter, j),
{
}

/// In a run of `Notify` calls that all ask for a new id, the counter
/// stands at the `k`-th fresh id when the `k`-th call is served.
pub proof fn lemma_counter_in_fresh_run(counter: u32, calls: Seq<Call>, k: nat)
    requires
        counter != 0,
        k <= calls.len(),
        forall|i: int| 0 <= i < calls.len() ==> (#[trigger] calls[i]).asks_fresh_id(),
    ensures
        counter_before(counter, calls, k) == nth_fresh_id(counter, k),
    decreases k,
{
    if k > 0 {
        lemma_counter_in_fresh_run(counter, calls, (k - 1) as nat);
        lemma_nth_fresh_id_steps(counter, (k - 1) as nat);
        assert(calls[k - 1].asks_fresh_id());
    }
}

/// Fresh ids ascend and do not repeat.
///
/// In every run of `Notify` calls that all ask for a new id, the `k`-th
/// call is answered with the `k`-th fresh id. Each id is the successor of
/// the one before, so the ids go up by one and wrap from `u32::MAX` to `1`;
/// and two calls less than a full cycle apart get different ids.
pub proof fn lemma_fresh_ids_ascend(counter: u32, calls: Seq<Call>)
    requires
        counter != 0,
        forall|i: int| 0 <= i < calls.len() ==> (#[trigger] calls[i]).asks_fresh_id(),
    ensures
        forall|k: nat|
            k < calls.len() ==> #[trigger] reply_at(counter, calls, k) == Some(
                seq![ValueView::Uint32(nth_fresh_id(counter, k))],
            ),
        forall|k: nat| #[trigger]
            nth_fresh_id(counter, k + 1) == successor(nth_fresh_id(counter, k)),
        forall|i: nat, j: nat|
            i < j < i + cycle() ==> #[trigger] nth_fresh_id(counter, i) != #[trigger] nth_fresh_id(
                counter,
                j,
            ),
{
    assert forall|k: nat| k < calls.len() implies #[trigger] reply_at(counter, calls, k) == Some(
        seq![ValueView::Uint32(nth_fresh_id(counter, k))],
    ) by {
        lemma_counter_in_fresh_run(counter, calls, k);
        assert(calls[k as int].asks_fresh_id());
    }
    assert forall|k: nat| #[trigger]
        nth_fresh_id(counter, k + 1) == successor(nth_fresh_id(counter, k)) by {
        lemma_nth_fresh_id_steps(counter, k);
    }
    assert forall|i: nat, j: nat| i < j < i + cycle() implies #[trigger] nth_fresh_id(counter, i)
        != #[trigger] nth_fresh_id(counter, j) by {
        lemma_nth_fresh_id_distinct(counter, i, j);
    }
}

/// Number of calls among the first `k` of the run that take a fresh id.
pub open spec fn fresh_before(calls: Seq<Call>, k: nat) -> nat
    decreases k,
{
    if k == 0 {
        0
    } else if calls[k - 1].takes_fresh_id() {
        fresh_before(calls, (k - 1) as nat) + 1
    } else {
        fresh_before(calls, (k - 1) as nat)
    }
}

/// In every run the counter has moved on by as many ids as calls have
/// taken a fresh one; no other call moves it.
pub proof fn lemma_counter_counts_fresh_calls(counter: u32, calls: Seq<Call>, k: nat)
    requires
        counter != 0,
        k <= calls.len(),
    ensures
        counter_before(counter, calls, k) == nth_fresh_id(counter, fresh_before(calls, k)),
    decreases k,
{
    if k > 0 {
        lemma_counter_counts_fresh_calls(counter, calls, (k - 1) as nat);
        lemma_nth_fresh_id_steps(counter, fresh_before(calls, (k - 1) as nat));
    }
}

/// Fresh ids ascend whatever is served between them.
///
/// In every run, a `Notify` call that asks for a new id is answered with
/// the fresh id that follows those handed out before it: calls that
/// replace an id, ask for the server information or are passed over do not
/// use one up.
pub proof fn lemma_fresh_ids_ascend_in_any_run(counter: u32, calls: Seq<Call>, k: nat)
    requires
        counter != 0,
        k < calls.len(),
        calls[k as int].asks_fresh_id(),
    ensures
        reply_at(counter, calls, k) == Some(
            seq![ValueView::Uint32(nth_fresh_id(counter, fresh_before(calls, k)))],
        ),
        fresh_before(calls, k + 1) == fresh_before(calls, k) + 1,
{
    lemma_counter_counts_fresh_calls(counter, calls, k);
}

/// A replaced id is kept.
///
/// A `Notify` call that names the id to replace is answered with that very
/// id and leaves the counter where it was, at whatever place in whatever
/// run it is served.
pub proof fn lemma_replaced_id_is_kept(counter: u32, calls: Seq<Call>, k: nat)
    requires
        k < calls.len(),
        calls[k as int].is_notify(),
        replaces_id_of(calls[k as int].parameters) != 0,
    ensures
        reply_at(counter, calls, k) == Some(
            seq![ValueView::Uint32(replaces_id_of(calls[k as int].parameters))],
        ),
        counter_before(counter, calls, k + 1) == counter_before(counter, calls, k),
{
}

/// The server information never changes.
///
/// `GetServerInformation` is answered with the same four values at every
/// place of every run, from every counter; it yields no event and leaves
/// the counter where it was.
pub proof fn lemma_server_information_is_constant(counter: u32, calls: Seq<Call>, k: nat)
    requires
        k < calls.len(),
        method_of(calls[k as int].method_name) == Some(Method::GetServerInformation),
    ensures
        reply_at(counter, calls, k) == Some(server_information()),
        event_at(counter, calls, k) is None,
        counter_before(counter, calls, k + 1) == counter_before(counter, calls, k),
{
}

/// A name outside the schema is passed over: no reply, no event, and the
/// counter stays.
pub proof fn lemma_unknown_method_is_ignored(counter: u32, calls: Seq<Call>, k: nat)
    requires
        k < calls.len(),
        method_of(calls[k as int].method_name) is None,
    ensures
        reply_at(counter, calls, k) is None,
        event_at(counter, calls, k) is None,
        counter_before(counter, calls, k + 1) == counter_before(counter, calls, k),
{
}

/// Every reply has the shape that the schema gives to the method's
/// answer.
pub proof fn lemma_reply_conforms_to_schema(counter: u32, call: Call)
    ensures
        match method_of(call.method_name) {
            Some(method) => serve(counter, call.method_name, call.parameters).reply matches Some(
                reply,
            ) && conforms_to(reply, reply_kinds(method)),
            None => serve(counter, call.method_name, call.parameters).reply is None,
        },
{
}

/// The counter is never zero, so no call is ever answered with zero as a
/// fresh id.
pub proof fn lemma_counter_never_zero(counter: u32, calls: Seq<Call>, k: nat)
    requires
        counter != 0,
        k <= calls.len(),
    ensures
        counter_before(counter, calls, k) != 0,
    decreases k,
{
    if k > 0 {
        lemma_counter_never_zero(counter, calls, (k - 1) as nat);
    }
}

/// One call from arrival to the queue: the counter and the delivered
/// events afterwards, and the reply.
pub struct Handled {
    pub counter: u32,
    pub reply: Option<Seq<ValueView>>,
    pub delivered: Seq<UIEventView>,
}

/// Serves `call` and then pushes its event, if it has one. `accepted`
/// tells whether the queue takes the event; that is up to the queue and
/// the consumer.
pub open spec fn handle(
    counter: u32,
    delivered: Seq<UIEventView>,
    call: Call,
    accepted: bool,
) -> Handled {
    let served = serve(counter, call.method_name, call.parameters);
    Handled {
        counter: served.counter,
        reply: served.reply,
        delivered: match served.event {
            Some(event) => delivered_after(delivered, event, accepted),
            None => delivered,
        },
    }
}

/// One `Notify`, one event.
///
/// A `Notify` call whose event the queue accepts adds exactly one event to
/// the delivered ones, and that event carries the id that the caller
/// received.
pub proof fn lemma_notify_delivers_one_event(
    counter: u32,
    delivered: Seq<UIEventView>,
    call: Call,
)
    requires
        call.is_notify(),
    ensures
        handle(counter, delivered, call, true).delivered.len() == delivered.len() + 1,
        handle(counter, delivered, call, true).delivered.drop_last() == delivered,
        handle(counter, delivered, call, true).reply == Some(
            seq![ValueView::Uint32(handle(counter, delivered, call, true).delivered.last().id())],
        ),
{
    let after = handle(counter, delivered, call, true).delivered;
    assert(after.drop_last() =~= delivered);
}

/// The caller is answered whether or not the consumer is there.
///
/// A `Notify` call gets the same reply, a single non-zero id, and moves the
/// counter in the same way, whether the queue accepts its event or not. A
/// refused event leaves the delivered ones as they were.
pub proof fn lemma_reply_regardless_of_consumer(
    counter: u32,
    delivered: Seq<UIEventView>,
    call: Call,
    accepted: bool,
)
    requires
        counter != 0,
        call.is_notify(),
    ensures
        handle(counter, delivered, call, accepted).reply == handle(
            counter,
            delivered,
            call,
            !accepted,
        ).reply,
        handle(counter, delivered, call, accepted).counter == handle(
            counter,
            delivered,
            call,
            !accepted,
        ).counter,
        handle(counter, delivered, call, accepted).reply == Some(
            seq![ValueView::Uint32(resolved_id(counter, replaces_id_of(call.parameters)))],
        ),
        resolved_id(counter, replaces_id_of(call.parameters)) != 0,
        handle(counter, delivered, call, false).delivered == delivered,
{
}

/// `order` names each of `n` calls once: `order[k]` is the call that is
/// served `k`-th.
pub open spec fn is_schedule(order: Seq<int>, n: nat) -> bool {
    &&& order.len() == n
    &&& forall|k: int| 0 <= k < n ==> 0 <= #[trigger] order[k] < n
    &&& forall|j: int, k: int| 0 <= j < k < n ==> #[trigger] order[j] != #[trigger] order[k]
}

/// The run in which `calls` are served in the given order.
pub open spec fn in_order(calls: Seq<Call>, order: Seq<int>) -> Seq<Call> {
    Seq::new(order.len(), |k: int| calls[order[k]])
}

/// Calls in flight together get a contiguous run of ids.
///
/// Let `calls` be `Notify` calls that all ask for a new id and are in
/// flight at once, fewer than a full cycle of them. In whatever order they
/// reach the allocator, the call served `k`-th gets the `k`-th fresh id:
/// the ids are `counter` and its successors with none left out, and no two
/// calls get the same.
pub proof fn lemma_concurrent_calls_get_contiguous_ids(
    counter: u32,
    calls: Seq<Call>,
    order: Seq<int>,
)
    requires
        counter != 0,
        calls.len() <= cycle(),
        forall|i: int| 0 <= i < calls.len() ==> (#[trigger] calls[i]).asks_fresh_id(),
        is_schedule(order, calls.len()),
    ensures
        forall|k: nat|
            k < calls.len() ==> #[trigger] reply_at(counter, in_order(calls, order), k) == Some(
                seq![ValueView::Uint32(nth_fresh_id(counter, k))],
            ),
        forall|k: nat|
            k + 1 < calls.len() ==> #[trigger] nth_fresh_id(counter, k + 1) == successor(
                nth_fresh_id(counter, k),
            ),
        forall|j: nat, k: nat|
            j < k < calls.len() ==> #[trigger] nth_fresh_id(counter, j) != #[trigger] nth_fresh_id(
                counter,
                k,
            ),
{
    let run = in_order(calls, order);
    assert forall|i: int| 0 <= i < run.len() implies (#[trigger] run[i]).asks_fresh_id() by {
        assert(0 <= order[i] < calls.len());
        assert(calls[order[i]].asks_fresh_id());
    }
    lemma_fresh_ids_ascend(counter, run);
    assert forall|j: nat, k: nat| j < k < calls.len() implies #[trigger] nth_fresh_id(counter, j)
        != #[trigger] nth_fresh_id(counter, k) by {
        lemma_nth_fresh_id_distinct(counter, j, k);
    }
}

} // verus!
