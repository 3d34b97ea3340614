//! The queue of scheduled notifications and the times they are due at.

use vstd::prelude::*;
use vstd::multiset::Multiset;
use crate::services::line::message::{LineMessageKind, LineSendMessage, ScheduledMessage};

verus! {

/// How often the queue is polled, in seconds.
pub const POLL_INTERVAL_SECS: u64 = 1;

/// A local date and time, as seconds since 1970-01-01 00:00:00 on the same
/// clock and the nanoseconds within that second (a leap second has up to
/// 1_999_999_999).
#[derive(Debug, Clone, Copy, PartialEq, Eq, Structural)]
pub struct Moment {
    pub seconds: i64,
    pub nanos: u32,
}

/// Whether `a` comes no later than `b`.
pub open spec fn not_after(a: Moment, b: Moment) -> bool {
    a.seconds < b.seconds || (a.seconds == b.seconds && a.nanos <= b.nanos)
}

impl Moment {
    /// Whether this moment comes no later than `other`.
    pub fn is_not_after(&self, other: &Moment) -> (res: bool)
        ensures
            res == not_after(*self, *other),
    {
        self.seconds < other.seconds || (self.seconds == other.seconds && self.nanos <= other.nanos)
    }
}

/// Whether a scheduled message is due at `now`.
pub open spec fn is_due(m: ScheduledMessage, now: Moment) -> bool {
    not_after(m.send_at, now)
}

/// The predicate "due at `now`".
pub open spec fn due_at(now: Moment) -> spec_fn(ScheduledMessage) -> bool {
    |m: ScheduledMessage| is_due(m, now)
}

/// The predicate "not yet due at `now`".
pub open spec fn pending_at(now: Moment) -> spec_fn(ScheduledMessage) -> bool {
    |m: ScheduledMessage| !is_due(m, now)
}

/// The messages of `q` that are due at `now`, in queue order.
pub open spec fn due_messages(q: Seq<ScheduledMessage>, now: Moment) -> Seq<ScheduledMessage> {
    q.filter(due_at(now))
}

/// The messages of `q` that are not yet due at `now`, in queue order.
pub open spec fn pending_messages(q: Seq<ScheduledMessage>, now: Moment) -> Seq<ScheduledMessage> {
    q.filter(pending_at(now))
}

/// The messages waiting to be sent, in the order they were scheduled.
#[derive(Debug)]
pub struct ScheduleQueue {
    messages: Vec<ScheduledMessage>,
}

impl View for ScheduleQueue {
    type V = Seq<ScheduledMessage>;

    closed spec fn view(&self) -> Seq<ScheduledMessage> {
        self.messages@
    }
}

impl ScheduleQueue {
    /// An empty queue.
    pub fn new() -> (q: Self)
        ensures
            q@ == Seq::<ScheduledMessage>::empty(),
    {
        ScheduleQueue { messages: Vec::new() }
    }

    /// A queue holding `messages` in their order, such as those read back from
    /// the database at start-up.
    pub fn from_messages(messages: Vec<ScheduledMessage>) -> (q: Self)
        ensures
            q@ == messages@,
    {
        ScheduleQueue { messages }
    }

    /// How many messages wait.
    pub fn len(&self) -> (n: usize)
        ensures
            n == self@.len(),
    {
        self.messages.len()
    }

    /// Schedules one more message, after those already waiting.
    pub fn push(&mut self, message: ScheduledMessage)
        ensures
            final(self)@ == old(self)@.push(message),
    {
        self.messages.push(message);
    }

    /// Takes out the messages that are due at `now`, in queue order; those not
    /// yet due stay, in their order.
    pub fn take_due(&mut self, now: Moment) -> (due: Vec<ScheduledMessage>)
        ensures
            due@ == due_messages(old(self)@, now),
            final(self)@ == pending_messages(old(self)@, now),
    {
        let mut queue: Vec<ScheduledMessage> = Vec::new();
        std::mem::swap(&mut queue, &mut self.messages);
        let ghost all = queue@;
        let mut due: Vec<ScheduledMessage> = Vec::new();
        let mut pending: Vec<ScheduledMessage> = Vec::new();
        assert(all.take(0) =~= Seq::<ScheduledMessage>::empty());
        reveal_with_fuel(Seq::filter, 1);
        for m in it: queue
            invariant
                it.seq() == all,
                due@ == all.take(it.index() as int).filter(due_at(now)),
                pending@ == all.take(it.index() as int).filter(pending_at(now)),
        {
            let ghost i = it.index() as int;
            proof {
                assert(all.take(i + 1) =~= all.take(i).push(m));
                all.take(i).lemma_filter_push(m, due_at(now));
                all.take(i).lemma_filter_push(m, pending_at(now));
            }
            if m.send_at.is_not_after(&now) {
                due.push(m);
            } else {
                pending.push(m);
            }
        }
        assert(all.take(all.len() as int) =~= all);
        self.messages = pending;
        due
    }

    /// One round of the polling loop at local time `now`: takes out the due
    /// messages and turns each, in order, into the notification that sends
    /// its text.
    pub fn poll(&mut self, now: Moment) -> (to_send: Vec<LineMessageKind>)
        ensures
            final(self)@ == pending_messages(old(self)@, now),
            to_send@.len() == due_messages(old(self)@, now).len(),
            forall|i: int| 0 <= i < to_send@.len() ==> (#[trigger] to_send@[i] matches LineMessageKind::Version1(n)
                && n.message == due_messages(old(self)@, now)[i].message),
    {
        let due = self.take_due(now);
        let ghost due_seq = due@;
        let mut to_send: Vec<LineMessageKind> = Vec::new();
        for m in it: due
            invariant
                it.seq() == due_seq,
                to_send@.len() == it.index(),
                forall|i: int| 0 <= i < to_send@.len() ==> (#[trigger] to_send@[i] matches LineMessageKind::Version1(n)
                    && n.message == due_seq[i].message),
        {
            to_send.push(LineMessageKind::Version1(LineSendMessage { message: m.message }));
        }
        to_send
    }
}

/// `not_after` orders moments totally: reflexive, transitive, antisymmetric
/// and total.
pub proof fn lemma_moment_order(a: Moment, b: Moment, c: Moment)
    ensures
        not_after(a, a),
        not_after(a, b) && not_after(b, c) ==> not_after(a, c),
        not_after(a, b) && not_after(b, a) ==> a == b,
        not_after(a, b) || not_after(b, a),
{
}

/// A poll sends only messages that are due and keeps only messages that are
/// not: every message taken out was due at `now`, every message left waits
/// for a later time.
pub proof fn lemma_poll_separates_due_from_pending(q: Seq<ScheduledMessage>, now: Moment)
    ensures
        forall|i: int| 0 <= i < due_messages(q, now).len() ==> is_due(#[trigger] due_messages(q, now)[i], now),
        forall|i: int| 0 <= i < pending_messages(q, now).len() ==> !is_due(#[trigger] pending_messages(q, now)[i], now),
{
    assert forall|i: int| 0 <= i < due_messages(q, now).len() implies is_due(#[trigger] due_messages(q, now)[i], now) by {
        q.lemma_filter_pred(due_at(now), i);
    }
    assert forall|i: int| 0 <= i < pending_messages(q, now).len() implies !is_due(#[trigger] pending_messages(q, now)[i], now) by {
        q.lemma_filter_pred(pending_at(now), i);
    }
}

/// Scheduling a message puts it at the end of the queue: at any time at which
/// it is due, the next poll sends it after the messages already due; at any
/// earlier time it waits behind those already waiting.
pub proof fn lemma_scheduled_message_is_taken_when_due(q: Seq<ScheduledMessage>, m: ScheduledMessage, now: Moment)
    ensures
        is_due(m, now) ==> due_messages(q.push(m), now) == due_messages(q, now).push(m)
            && pending_messages(q.push(m), now) == pending_messages(q, now),
        !is_due(m, now) ==> due_messages(q.push(m), now) == due_messages(q, now)
            && pending_messages(q.push(m), now) == pending_messages(q, now).push(m),
{
    q.lemma_filter_push(m, due_at(now));
    q.lemma_filter_push(m, pending_at(now));
}

/// Taking out the due messages neither loses nor duplicates a message: the
/// messages sent and the messages kept are, together, those of the queue.
pub proof fn lemma_take_due_keeps_every_message(q: Seq<ScheduledMessage>, now: Moment)
    ensures
        due_messages(q, now).to_multiset().add(pending_messages(q, now).to_multiset()) == q.to_multiset(),
        due_messages(q, now).len() + pending_messages(q, now).len() == q.len(),
    decreases q.len(),
{
    broadcast use vstd::seq_lib::to_multiset_build, vstd::multiset::group_multiset_axioms;

    if q.len() == 0 {
        reveal_with_fuel(Seq::filter, 1);
        assert(q.to_multiset() =~= Multiset::empty()) by {
            broadcast use vstd::seq_lib::group_to_multiset_ensures;
        }
        assert(due_messages(q, now).to_multiset() =~= Multiset::empty()) by {
            broadcast use vstd::seq_lib::group_to_multiset_ensures;
        }
        assert(pending_messages(q, now).to_multiset() =~= Multiset::empty()) by {
            broadcast use vstd::seq_lib::group_to_multiset_ensures;
        }
    } else {
        let p = q.drop_last();
        let m = q.last();
        assert(q =~= p.push(m));
        lemma_take_due_keeps_every_message(p, now);
        lemma_scheduled_message_is_taken_when_due(p, m, now);
        assert(due_messages(q, now).to_multiset().add(pending_messages(q, now).to_multiset())
            =~= q.to_multiset());
    }
}

/// Once polled, nothing due is left: polling again at the same time sends
/// nothing and keeps the queue as it is.
pub proof fn lemma_nothing_due_remains(q: Seq<ScheduledMessage>, now: Moment)
    ensures
        due_messages(pending_messages(q, now), now) == Seq::<ScheduledMessage>::empty(),
        pending_messages(pending_messages(q, now), now) == pending_messages(q, now),
    decreases q.len(),
{
    if q.len() == 0 {
        reveal_with_fuel(Seq::filter, 2);
    } else {
        let p = q.drop_last();
        let m = q.last();
        assert(q =~= p.push(m));
        lemma_nothing_due_remains(p, now);
        lemma_scheduled_message_is_taken_when_due(p, m, now);
        lemma_scheduled_message_is_taken_when_due(pending_messages(p, now), m, now);
    }
}

/// Polling at `t1` and then at a later `t2` keeps the same messages waiting
/// as polling at `t2` alone, and sends the same messages in all.
pub proof fn lemma_later_poll_catches_up(q: Seq<ScheduledMessage>, t1: Moment, t2: Moment)
    requires
        not_after(t1, t2),
    ensures
        pending_messages(pending_messages(q, t1), t2) == pending_messages(q, t2),
        due_messages(q, t1).to_multiset().add(due_messages(pending_messages(q, t1), t2).to_multiset())
            == due_messages(q, t2).to_multiset(),
    decreases q.len(),
{
    broadcast use vstd::seq_lib::to_multiset_build, vstd::multiset::group_multiset_axioms;

    if q.len() == 0 {
        reveal_with_fuel(Seq::filter, 2);
        assert(due_messages(q, t1).to_multiset() =~= Multiset::empty()) by {
            broadcast use vstd::seq_lib::group_to_multiset_ensures;
        }
    } else {
        let p = q.drop_last();
        let m = q.last();
        assert(q =~= p.push(m));
        lemma_later_poll_catches_up(p, t1, t2);
        lemma_scheduled_message_is_taken_when_due(p, m, t1);
        lemma_scheduled_message_is_taken_when_due(p, m, t2);
        lemma_scheduled_message_is_taken_when_due(pending_messages(p, t1), m, t2);
        assert(due_messages(q, t1).to_multiset().add(due_messages(pending_messages(q, t1), t2).to_multiset())
            =~= due_messages(q, t2).to_multiset());
    }
}

/// What a run of polls at the given times sends, one batch per poll, from
/// the queue `q` with no message scheduled in between.
pub open spec fn run_sends(q: Seq<ScheduledMessage>, times: Seq<Moment>) -> Seq<Seq<ScheduledMessage>>
    decreases times.len(),
{
    if times.len() == 0 {
        Seq::empty()
    } else {
        seq![due_messages(q, times[0])] + run_sends(pending_messages(q, times[0]), times.drop_first())
    }
}

/// What is left waiting after a run of polls at the given times.
pub open spec fn run_rest(q: Seq<ScheduledMessage>, times: Seq<Moment>) -> Seq<ScheduledMessage>
    decreases times.len(),
{
    if times.len() == 0 {
        q
    } else {
        run_rest(pending_messages(q, times[0]), times.drop_first())
    }
}

/// Over a whole run of polls, every message of the queue is sent at most
/// once: the batches sent and what is left are, together, exactly the
/// messages of the queue.
pub proof fn lemma_run_sends_each_message_at_most_once(q: Seq<ScheduledMessage>, times: Seq<Moment>)
    ensures
        run_sends(q, times).flatten().to_multiset().add(run_rest(q, times).to_multiset()) == q.to_multiset(),
    decreases times.len(),
{
    broadcast use vstd::seq_lib::lemma_multiset_commutative, vstd::multiset::group_multiset_axioms;

    if times.len() > 0 {
        let p = pending_messages(q, times[0]);
        lemma_take_due_keeps_every_message(q, times[0]);
        lemma_run_sends_each_message_at_most_once(p, times.drop_first());
        let batches = run_sends(q, times);
        assert(batches.first() == due_messages(q, times[0]));
        assert(batches.drop_first() =~= run_sends(p, times.drop_first()));
        assert(batches.flatten() == due_messages(q, times[0]) + run_sends(p, times.drop_first()).flatten());
        assert(run_sends(q, times).flatten().to_multiset().add(run_rest(q, times).to_multiset()) =~= q.to_multiset());
    } else {
        assert(run_sends(q, times).flatten() =~= Seq::<ScheduledMessage>::empty());
        assert(run_sends(q, times).flatten().to_multiset() =~= Multiset::empty()) by {
            broadcast use vstd::seq_lib::group_to_multiset_ensures;
        }
    }
}

/// Over a whole run of polls, each message is sent by the first poll whose
/// time is at or after its send time, and by no other: every message in the
/// batch of poll `i` is due at `times[i]` and was due at no earlier poll, and
/// every message left waiting was due at no poll of the run. Every message
/// sent or left comes from the queue.
pub proof fn lemma_run_sends_each_message_at_its_first_due_poll(q: Seq<ScheduledMessage>, times: Seq<Moment>)
    ensures
        run_sends(q, times).len() == times.len(),
        forall|i: int, j: int| #![trigger run_sends(q, times)[i][j]]
            0 <= i < times.len() && 0 <= j < run_sends(q, times)[i].len() ==> {
                &&& q.contains(run_sends(q, times)[i][j])
                &&& is_due(run_sends(q, times)[i][j], times[i])
                &&& forall|k: int| 0 <= k < i ==> !is_due(run_sends(q, times)[i][j], #[trigger] times[k])
            },
        forall|x: ScheduledMessage| #[trigger] run_rest(q, times).contains(x) ==> q.contains(x)
            && forall|k: int| 0 <= k < times.len() ==> !is_due(x, #[trigger] times[k]),
    decreases times.len(),
{
    if times.len() > 0 {
        let t0 = times[0];
        let rest_times = times.drop_first();
        let p = pending_messages(q, t0);
        let d = due_messages(q, t0);
        lemma_run_sends_each_message_at_its_first_due_poll(p, rest_times);
        lemma_poll_separates_due_from_pending(q, t0);
        let batches = run_sends(q, times);
        assert(batches == seq![d] + run_sends(p, rest_times));
        assert forall|i: int, j: int| #![trigger batches[i][j]]
            0 <= i < times.len() && 0 <= j < batches[i].len() implies {
                &&& q.contains(batches[i][j])
                &&& is_due(batches[i][j], times[i])
                &&& forall|k: int| 0 <= k < i ==> !is_due(batches[i][j], #[trigger] times[k])
            } by {
            if i == 0 {
                assert(batches[0] == d);
                q.lemma_filter_contains_rev(due_at(t0), d[j]);
                assert(d.contains(d[j]));
            } else {
                assert(batches[i] == run_sends(p, rest_times)[i - 1]);
                let m = batches[i][j];
                assert(m == run_sends(p, rest_times)[i - 1][j]);
                assert(p.contains(m));
                q.lemma_filter_contains_rev(pending_at(t0), m);
                let idx = choose|idx: int| 0 <= idx < p.len() && p[idx] == m;
                assert(!is_due(p[idx], t0));
                assert forall|k: int| 0 <= k < i implies !is_due(m, #[trigger] times[k]) by {
                    if k > 0 {
                        assert(times[k] == rest_times[k - 1]);
                    }
                }
                assert(times[i] == rest_times[i - 1]);
            }
        }
        assert forall|x: ScheduledMessage| #[trigger] run_rest(q, times).contains(x) implies q.contains(x)
            && forall|k: int| 0 <= k < times.len() ==> !is_due(x, #[trigger] times[k]) by {
            assert(run_rest(q, times) == run_rest(p, rest_times));
            q.lemma_filter_contains_rev(pending_at(t0), x);
            let idx = choose|idx: int| 0 <= idx < p.len() && p[idx] == x;
            assert(!is_due(p[idx], t0));
            assert forall|k: int| 0 <= k < times.len() implies !is_due(x, #[trigger] times[k]) by {
                if k > 0 {
                    assert(times[k] == rest_times[k - 1]);
                }
            }
        }
    }
}

} // verus!
