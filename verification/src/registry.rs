//! The table of live connections and the fan-out over it.

use std::collections::HashMap;

use tokio::sync::mpsc::UnboundedReceiver;
use tokio::sync::mpsc::UnboundedSender;
use vstd::prelude::*;
use vstd::std_specs::hash::spec_hash_map_iter;
use vstd::std_specs::iter::IteratorSpec;

use crate::model::ClientMsg;
use crate::model::Payload;

verus! {

broadcast use vstd::std_specs::hash::group_hash_axioms;

/// The sending half of a connection's outbound queue. Its inside is tokio's.
#[verifier::external_type_specification]
#[verifier::external_body]
#[verifier::reject_recursive_types(T)]
pub struct ExUnboundedSender<T>(UnboundedSender<T>);

/// The receiving half of a connection's outbound queue. Its inside is tokio's.
#[verifier::external_type_specification]
#[verifier::external_body]
#[verifier::reject_recursive_types(T)]
pub struct ExUnboundedReceiver<T>(UnboundedReceiver<T>);

/// Opens an unbounded queue through `tokio::sync::mpsc::unbounded_channel`
/// and returns its two halves. Nothing is claimed of them.
#[verifier::external_body]
pub(crate) fn open_queue() -> (halves: (UnboundedSender<ClientMsg>, UnboundedReceiver<ClientMsg>)) {
    tokio::sync::mpsc::unbounded_channel()
}

/// Offers `msg` to a queue through `UnboundedSender::send`, which never
/// waits. The answer is whether the queue took the message: tokio refuses it
/// once the receiving half is closed or dropped, and that is decided on the
/// other side, so nothing is claimed of the answer.
#[verifier::external_body]
pub(crate) fn offer(queue: &UnboundedSender<ClientMsg>, msg: ClientMsg) -> (taken: bool) {
    queue.send(msg).is_ok()
}

/// How one connection fared in a fan-out.
#[derive(Clone, Copy, Debug, PartialEq, Eq, Structural)]
pub struct Delivery {
    /// The connection.
    pub id: usize,
    /// Whether its queue took the message.
    pub accepted: bool,
}

/// What a queue that held `queue` has taken after `msg` was offered to it.
pub open spec fn offered(queue: Seq<Payload>, msg: Payload, accepted: bool) -> Seq<Payload> {
    if accepted {
        queue.push(msg)
    } else {
        queue
    }
}

/// Offers `msg` to `queue` and keeps the books: returns whether the queue
/// took the message, and what the queue has taken by now, given that it had
/// taken `had` before.
fn hand_over(
    queue: &UnboundedSender<ClientMsg>,
    msg: ClientMsg,
    had: Ghost<Seq<Payload>>,
) -> (outcome: (bool, Ghost<Seq<Payload>>))
    ensures
        outcome.1@ == offered(had@, msg@, outcome.0),
{
    let ghost payload = msg@;
    let accepted = offer(queue, msg);
    (accepted, Ghost(offered(had@, payload, accepted)))
}

/// One fan-out of `msg` over the connections of `before`, with `report` as
/// its outcome and `after` as the table it leaves:
/// the same connections stay registered; the report has as many entries as
/// there are connections, and each connection is named by exactly one of
/// them; and what each queue has taken grows by `msg` where its entry says
/// accepted, and stays as it was where it says refused.
pub open spec fn fanned_out(
    before: Map<usize, Seq<Payload>>,
    msg: Payload,
    report: Seq<Delivery>,
    after: Map<usize, Seq<Payload>>,
) -> bool {
    &&& after.dom() == before.dom()
    &&& before.dom().finite()
    &&& report.len() == before.len()
    &&& forall|k: int| 0 <= k < report.len() ==> before.contains_key(#[trigger] report[k].id)
    &&& forall|i: int, j: int|
        0 <= i < j < report.len() ==> (#[trigger] report[i]).id != (#[trigger] report[j]).id
    &&& forall|id: usize| #[trigger]
        before.contains_key(id) ==> exists|k: int|
            0 <= k < report.len() && #[trigger] report[k].id == id
    &&& forall|k: int|
        0 <= k < report.len() ==> after[#[trigger] report[k].id] == offered(
            before[report[k].id],
            msg,
            report[k].accepted,
        )
}

/// The items of a walk over `queues` name each of its keys exactly once.
pub(crate) open spec fn walks(
    items: Seq<(&usize, &UnboundedSender<ClientMsg>)>,
    queues: Map<usize, UnboundedSender<ClientMsg>>,
) -> bool {
    &&& forall|k: int| 0 <= k < items.len() ==> queues.contains_key(*(#[trigger] items[k]).0)
    &&& forall|i: int, j: int|
        0 <= i < j < items.len() ==> *(#[trigger] items[i]).0 != *(#[trigger] items[j]).0
    &&& forall|id: usize| #[trigger]
        queues.contains_key(id) ==> exists|k: int|
            0 <= k < items.len() && *(#[trigger] items[k]).0 == id
}

/// A walk over a hash map with `iter` names each of its keys exactly once.
proof fn lemma_walk_of_iter(queues: &HashMap<usize, UnboundedSender<ClientMsg>>)
    ensures
        spec_hash_map_iter(queues).remaining().no_duplicates() ==> walks(
            spec_hash_map_iter(queues).remaining(),
            queues@,
        ),
{
    let items = spec_hash_map_iter(queues).remaining();
    if items.no_duplicates() {
        assert forall|k: int| 0 <= k < items.len() implies queues@.contains_key(
            *(#[trigger] items[k]).0,
        ) by {}
        assert forall|i: int, j: int| 0 <= i < j < items.len() implies *(#[trigger] items[i]).0
            != *(#[trigger] items[j]).0 by {
            if *items[i].0 == *items[j].0 {
                assert(queues@[*items[i].0] == *items[i].1);
                assert(queues@[*items[j].0] == *items[j].1);
                assert(items[i] == items[j]);
            }
        }
        assert forall|id: usize| #[trigger] queues@.contains_key(id) implies exists|k: int|
            0 <= k < items.len() && *(#[trigger] items[k]).0 == id by {
            let item = (&id, &queues@[id]);
            assert(items.contains(item));
            let k = choose|k: int| 0 <= k < items.len() && items[k] == item;
            assert(*items[k].0 == id);
        }
    }
}

/// The table of live connections: for each registered connection id, the
/// sending half of its outbound queue.
///
/// The view is a map from each registered id to the messages that its queue
/// has taken through this table since the id was registered, oldest first.
pub struct Registry {
    queues: HashMap<usize, UnboundedSender<ClientMsg>>,
    taken: Ghost<Map<usize, Seq<Payload>>>,
}

impl View for Registry {
    type V = Map<usize, Seq<Payload>>;

    closed spec fn view(&self) -> Map<usize, Seq<Payload>> {
        Map::new(|id: usize| self.queues@.contains_key(id), |id: usize| self.taken@[id])
    }
}

impl Registry {
    /// An empty table.
    pub fn new() -> (registry: Registry)
        ensures
            registry@ == Map::<usize, Seq<Payload>>::empty(),
    {
        let registry = Registry { queues: HashMap::new(), taken: Ghost(Map::empty()) };
        assert(registry@ =~= Map::<usize, Seq<Payload>>::empty());
        registry
    }

    /// The number of registered connections.
    pub fn len(&self) -> (n: usize)
        ensures
            n == self@.len(),
            self@.dom().finite(),
    {
        assert(self@.dom() =~= self.queues@.dom());
        self.queues.len()
    }

    /// Whether `id` is registered.
    pub fn contains(&self, id: usize) -> (found: bool)
        ensures
            found == self@.contains_key(id),
    {
        self.queues.contains_key(&id)
    }

    /// Registers `queue` under `id`, with nothing taken yet. An entry that
    /// `id` already had is replaced.
    pub fn register(&mut self, id: usize, queue: UnboundedSender<ClientMsg>)
        ensures
            final(self)@ == old(self)@.insert(id, Seq::<Payload>::empty()),
    {
        self.queues.insert(id, queue);
        self.taken = Ghost(self.taken@.insert(id, Seq::empty()));
        assert(self@ =~= old(self)@.insert(id, Seq::<Payload>::empty()));
    }

    /// Takes `id` out of the table, so that later fan-outs pass it by.
    /// Returns whether it was registered.
    pub fn remove(&mut self, id: usize) -> (found: bool)
        ensures
            found == old(self)@.contains_key(id),
            final(self)@ == old(self)@.remove(id),
    {
        let removed = self.queues.remove(&id);
        assert(self@ =~= old(self)@.remove(id));
        removed.is_some()
    }

    /// Offers a copy of `msg` to the queue of every registered connection,
    /// the sender's own included. A queue that refuses the message does not
    /// stop the fan-out: every connection is offered the message once, and
    /// the report says of each whether its queue took it.
    pub fn broadcast(&mut self, msg: &ClientMsg) -> (report: Vec<Delivery>)
        ensures
            fanned_out(old(self)@, msg@, report@, final(self)@),
    {
        let ghost before = self@;
        let ghost taken0 = self.taken@;
        let ghost mut taken = self.taken@;
        let mut report: Vec<Delivery> = Vec::new();
        let ghost items = spec_hash_map_iter(&self.queues).remaining();
        proof {
            lemma_walk_of_iter(&self.queues);
        }
        for entry in it: self.queues.iter()
            invariant
                it.seq() == items,
                walks(items, self.queues@),
                report@.len() == it.index(),
                forall|k: int|
                    0 <= k < report@.len() ==> (#[trigger] report@[k]).id == *it.seq()[k].0,
                forall|k: int|
                    0 <= k < report@.len() ==> taken[(#[trigger] report@[k]).id] == offered(
                        taken0[report@[k].id],
                        msg@,
                        report@[k].accepted,
                    ),
                forall|j: int|
                    it.index() <= j < it.seq().len() ==> taken[*(#[trigger] it.seq()[j]).0]
                        == taken0[*it.seq()[j].0],
        {
            let (id, queue) = entry;
            let (accepted, has) = hand_over(queue, msg.clone(), Ghost(taken0[*id]));
            let ghost earlier = report@;
            report.push(Delivery { id: *id, accepted });
            proof {
                taken = taken.insert(*id, has@);
                assert forall|k: int| 0 <= k < report@.len() implies taken[(#[trigger] report@[k]).id]
                    == offered(taken0[report@[k].id], msg@, report@[k].accepted) by {
                    if k < earlier.len() {
                        assert(report@[k] == earlier[k]);
                        assert(*it.seq()[k].0 != *it.seq()[it.index()].0);
                    }
                }
            }
        }
        self.taken = Ghost(taken);
        proof {
            let after = self@;
            assert(after.dom() =~= before.dom());
            assert(before.dom() =~= self.queues@.dom());
            assert forall|id: usize| #[trigger] before.contains_key(id) implies exists|k: int|
                0 <= k < report@.len() && #[trigger] report@[k].id == id by {
                let k = choose|k: int| 0 <= k < items.len() && *(#[trigger] items[k]).0 == id;
                assert(report@[k].id == id);
            }
            assert forall|k: int| 0 <= k < report@.len() implies after[#[trigger] report@[k].id]
                == offered(before[report@[k].id], msg@, report@[k].accepted) by {
                assert(self.queues@.contains_key(*items[k].0));
            }
        }
        report
    }
}

/// Every connection that is registered when a message is fanned out is
/// offered that message, the sender's own connection like any other: the
/// report has an entry for it, and its queue has taken the message unless
/// that entry says refused.
pub proof fn lemma_fan_out_reaches_every_connection(
    before: Map<usize, Seq<Payload>>,
    msg: Payload,
    report: Seq<Delivery>,
    after: Map<usize, Seq<Payload>>,
    id: usize,
)
    requires
        fanned_out(before, msg, report, after),
        before.contains_key(id),
    ensures
        after.contains_key(id),
        exists|k: int|
            0 <= k < report.len() && (#[trigger] report[k]).id == id && after[id] == offered(
                before[id],
                msg,
                report[k].accepted,
            ),
{
    let k = choose|k: int| 0 <= k < report.len() && #[trigger] report[k].id == id;
    assert(report[k].id == id);
}

/// A queue that refuses a message does not keep the message from another
/// connection: where the report says that `failed` refused and `other`
/// accepted, the queue of `other` has taken the message as its newest, and
/// that of `failed` is as it was.
pub proof fn lemma_refusal_is_isolated(
    before: Map<usize, Seq<Payload>>,
    msg: Payload,
    report: Seq<Delivery>,
    after: Map<usize, Seq<Payload>>,
    failed: int,
    other: int,
)
    requires
        fanned_out(before, msg, report, after),
        0 <= failed < report.len(),
        0 <= other < report.len(),
        !report[failed].accepted,
        report[other].accepted,
    ensures
        after[report[other].id] == before[report[other].id].push(msg),
        after[report[failed].id] == before[report[failed].id],
{
}

/// A queue takes messages in the order in which they were fanned out: after
/// a fan-out of `first` and then one of `second`, a connection that accepted
/// both holds `first` directly before `second`, behind all that it held
/// before.
pub proof fn lemma_fan_out_keeps_order(
    before: Map<usize, Seq<Payload>>,
    first: Payload,
    first_report: Seq<Delivery>,
    between: Map<usize, Seq<Payload>>,
    second: Payload,
    second_report: Seq<Delivery>,
    after: Map<usize, Seq<Payload>>,
    i: int,
    j: int,
)
    requires
        fanned_out(before, first, first_report, between),
        fanned_out(between, second, second_report, after),
        0 <= i < first_report.len(),
        0 <= j < second_report.len(),
        first_report[i].id == second_report[j].id,
        first_report[i].accepted,
        second_report[j].accepted,
    ensures
        after[first_report[i].id] == before[first_report[i].id].push(first).push(second),
{
}

} // verus!
