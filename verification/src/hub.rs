//! The broadcast hub: the id allocator and the connection table under one
//! owner, to be shared by all connection handlers behind one lock.

use tokio::sync::mpsc::UnboundedReceiver;
use vstd::prelude::*;

use crate::ids::nth_id;
use crate::ids::IdAllocator;
use crate::model::ClientMsg;
use crate::model::Payload;
use crate::registry::fanned_out;
use crate::registry::open_queue;
use crate::registry::Delivery;
use crate::registry::Registry;

verus! {

/// What a handler holds of its connection: the id, and the receiving half of
/// the outbound queue, from which its write side pulls.
pub struct Connection {
    pub id: usize,
    pub outbound: UnboundedReceiver<ClientMsg>,
}

/// The state that all connections share.
///
/// Every registered id is one that the hub's allocator has issued: with
/// `issued()` connections taken in so far, the ids at work are among
/// `nth_id(1, 0)`, ..., `nth_id(1, issued() - 1)`.
pub struct Hub {
    ids: IdAllocator,
    registry: Registry,
    issued: Ghost<nat>,
}

impl Hub {
    /// The hub is in order: its allocator stands where `issued()` calls from
    /// 1 lead, and every registered id is one that it has issued. `new`
    /// makes such a hub and every method keeps it so.
    pub closed spec fn wf(&self) -> bool {
        &&& self.ids.upcoming() == nth_id(1, self.issued@)
        &&& forall|id: usize| #[trigger]
            self.registry@.contains_key(id) ==> exists|n: nat|
                n < self.issued@ && id == #[trigger] nth_id(1, n)
    }

    /// The number of connections that the hub has taken in since it was made.
    pub closed spec fn issued(&self) -> nat {
        self.issued@
    }

    /// For each registered connection id, the messages that its outbound
    /// queue has taken since it was registered, oldest first.
    pub closed spec fn connections(&self) -> Map<usize, Seq<Payload>> {
        self.registry@
    }

    /// A hub without connections, whose first connection gets the id 1.
    pub fn new() -> (hub: Hub)
        ensures
            hub.wf(),
            hub.connections() == Map::<usize, Seq<Payload>>::empty(),
            hub.issued() == 0,
    {
        Hub { ids: IdAllocator::new(), registry: Registry::new(), issued: Ghost(0) }
    }

    /// Takes a new connection in: allocates its id, opens its outbound queue
    /// and registers the queue under the id, so that the connection is offered
    /// every message from now on.
    pub fn connect(&mut self) -> (conn: Connection)
        requires
            old(self).wf(),
        ensures
            final(self).wf(),
            conn.id == nth_id(1, old(self).issued()),
            final(self).issued() == old(self).issued() + 1,
            final(self).connections() == old(self).connections().insert(
                conn.id,
                Seq::<Payload>::empty(),
            ),
    {
        let id: usize = self.ids.next();
        let (queue, outbound) = open_queue();
        self.registry.register(id, queue);
        self.issued = Ghost((self.issued@ + 1) as nat);
        proof {
            assert(id == nth_id(1, old(self).issued@));
            assert forall|other: usize| #[trigger]
                self.registry@.contains_key(other) implies exists|n: nat|
                n < self.issued@ && other == #[trigger] nth_id(1, n) by {
                if other != id {
                    assert(old(self).registry@.contains_key(other));
                    let n = choose|n: nat|
                        n < old(self).issued@ && other == #[trigger] nth_id(1, n);
                    assert(n < self.issued@ && other == nth_id(1, n));
                }
            }
        }
        Connection { id, outbound }
    }

    /// Takes the connection `id` out, so that later messages pass it by.
    /// Returns whether it was registered.
    pub fn disconnect(&mut self, id: usize) -> (found: bool)
        requires
            old(self).wf(),
        ensures
            final(self).wf(),
            found == old(self).connections().contains_key(id),
            final(self).connections() == old(self).connections().remove(id),
            final(self).issued() == old(self).issued(),
    {
        self.registry.remove(id)
    }

    /// Whether the connection `id` is registered.
    pub fn is_connected(&self, id: usize) -> (found: bool)
        ensures
            found == self.connections().contains_key(id),
    {
        self.registry.contains(id)
    }

    /// The number of registered connections.
    pub fn len(&self) -> (n: usize)
        ensures
            n == self.connections().len(),
            self.connections().dom().finite(),
    {
        self.registry.len()
    }

    /// Fans `msg` out to every registered connection and reports how each
    /// fared. Registrations and the id allocator stay as they are.
    pub fn broadcast(&mut self, msg: &ClientMsg) -> (report: Vec<Delivery>)
        requires
            old(self).wf(),
        ensures
            final(self).wf(),
            fanned_out(old(self).connections(), msg@, report@, final(self).connections()),
            final(self).issued() == old(self).issued(),
    {
        let report = self.registry.broadcast(msg);
        proof {
            assert(self.registry@.dom() == old(self).registry@.dom());
            assert forall|id: usize| #[trigger]
                self.registry@.contains_key(id) implies exists|n: nat|
                n < self.issued@ && id == #[trigger] nth_id(1, n) by {
                assert(old(self).registry@.contains_key(id));
            }
        }
        report
    }

    /// Every registered id came from the allocator: it is the id of one of
    /// the connections that the hub has taken in.
    pub proof fn lemma_registered_ids_were_issued(self, id: usize)
        requires
            self.wf(),
            self.connections().contains_key(id),
        ensures
            exists|n: nat| n < self.issued() && id == #[trigger] nth_id(1, n),
    {
    }
}

} // verus!
