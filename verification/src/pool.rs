//! The queue inside a connection pool: idle connections, and the tasks that wait
//! for one.
use vstd::prelude::*;
use std::collections::VecDeque;
use futures::channel::oneshot::Sender;

verus! {

#[verifier::external_type_specification]
#[verifier::external_body]
#[verifier::reject_recursive_types(T)]
pub struct ExSender<T>(Sender<T>);

/// Calls `futures::channel::oneshot::Sender::send`, which hands `connect` to the
/// waiting task. The crate documents that where the receiving end was dropped the
/// value comes back as the error; the contract claims that and nothing else, since
/// whether the receiver is still there depends on the other task.
#[verifier::external_body]
fn send_to_waiter<C>(waiter: Sender<C>, connect: C) -> (r: Result<(), C>)
    ensures
        r matches Err(c) ==> c == connect,
{
    waiter.send(connect)
}

/// Whether offering `connect` to `waiter` handed it over: the send came back `Ok`.
pub closed spec fn accepted<C>(waiter: Sender<C>, connect: C) -> bool {
    call_ensures(send_to_waiter::<C>, (waiter, connect), Ok::<(), C>(()))
}

/// Whether offering `connect` to `waiter` was refused: the send gave the connection
/// back, because the task had stopped waiting.
pub closed spec fn refused<C>(waiter: Sender<C>, connect: C) -> bool {
    call_ensures(send_to_waiter::<C>, (waiter, connect), Err::<(), C>(connect))
}

/// Whether the first `k` waiting tasks were each offered `connect` and refused it.
pub open spec fn all_refused<C>(waiters: Seq<Sender<C>>, connect: C, k: int) -> bool {
    forall|i: int| 0 <= i < k ==> #[trigger] refused(waiters[i], connect)
}

/// What an offer's outcome leaves: nothing where the task took the connection,
/// else the connection it gave back, to offer to the next task.
pub fn after_offer<C>(outcome: Result<(), C>) -> (left: Option<C>)
    ensures
        outcome is Ok ==> left is None,
        outcome matches Err(c) ==> left == Some(c),
{
    match outcome {
        Ok(()) => None,
        Err(c) => Some(c),
    }
}

/// The state of a pool: the tasks waiting for a connection, in the order they
/// came, and the idle connections.
#[verifier::reject_recursive_types(C)]
pub struct InternalPool<C> {
    pub waiters: VecDeque<Sender<C>>,
    pub conns: VecDeque<C>,
    pub num: usize,
}

impl<C> InternalPool<C> {
    /// An empty pool state that holds these idle connections.
    pub fn new(conns: VecDeque<C>, num: usize) -> (p: InternalPool<C>)
        ensures
            p.waiters@.len() == 0,
            p.conns@ == conns@,
            p.num == num,
    {
        InternalPool { waiters: VecDeque::new(), conns, num }
    }

    /// Gives a connection back: it is offered to the waiting tasks in the order
    /// they came, and each that refuses it (it stopped waiting) is dropped; the
    /// first that accepts it ends the offers. Where none accepts, it joins the idle
    /// connections. The connection is never lost.
    pub fn put_back(&mut self, connect: C)
        ensures
            final(self).num == old(self).num,
            exists|k: int|
                0 <= k <= old(self).waiters@.len()
                && #[trigger] old(self).waiters@.skip(k) == final(self).waiters@
                && ((k == old(self).waiters@.len() && all_refused(old(self).waiters@, connect, k)
                        && final(self).conns@ == old(self).conns@.push(connect))
                    || (k >= 1 && all_refused(old(self).waiters@, connect, k - 1)
                        && accepted(old(self).waiters@[k - 1], connect)
                        && final(self).conns@ == old(self).conns@)),
    {
        let ghost old_waiters = self.waiters@;
        let ghost old_conns = self.conns@;
        let mut current = connect;
        let ghost given = connect;
        let ghost mut k: int = 0;
        assert(old_waiters.skip(0) =~= old_waiters);
        while self.waiters.len() > 0
            invariant
                0 <= k <= old_waiters.len(),
                self.waiters@ == old_waiters.skip(k),
                old_waiters == old(self).waiters@,
                self.conns@ == old_conns,
                old_conns == old(self).conns@,
                self.num == old(self).num,
                current == given,
                given == connect,
                all_refused(old_waiters, given, k),
            decreases self.waiters@.len(),
        {
            assert(self.waiters@.len() == old_waiters.len() - k);
            assert(self.waiters@[0] == old_waiters[k]);
            let waiter = self.waiters.pop_front().unwrap();
            // Called as a value, so that the outcome of this very offer is on record.
            let send = send_to_waiter::<C>;
            let outcome = send(waiter, current);
            proof {
                k = k + 1;
            }
            assert(old_waiters.skip(k) =~= old_waiters.skip(k - 1).drop_first());
            match after_offer(outcome) {
                None => {
                    assert(outcome->Ok_0 == ());
                    assert(outcome == Ok::<(), C>(()));
                    assert(accepted(old_waiters[k - 1], given));
                    assert(all_refused(old_waiters, given, k - 1));
                    assert(old(self).waiters@.skip(k) == self.waiters@);
                    return;
                },
                Some(returned) => {
                    assert(refused(old_waiters[k - 1], given));
                    current = returned;
                },
            }
        }
        assert(self.waiters@.len() == old_waiters.len() - k);
        assert(k == old_waiters.len());
        self.conns.push_back(current);
        assert(old(self).waiters@.skip(k) == self.waiters@);
    }

    /// Takes an idle connection, the oldest, if there is one.
    pub fn take(&mut self) -> (c: Option<C>)
        ensures
            final(self).waiters@ == old(self).waiters@,
            final(self).num == old(self).num,
            old(self).conns@.len() == 0 ==> c is None && final(self).conns@ == old(self).conns@,
            old(self).conns@.len() > 0 ==> c == Some(old(self).conns@[0]) && final(self).conns@ == old(self).conns@.drop_first(),
    {
        self.conns.pop_front()
    }

    /// Adds a task to the end of the queue of waiting tasks.
    pub fn wait(&mut self, waiter: Sender<C>)
        ensures
            final(self).waiters@ == old(self).waiters@.push(waiter),
            final(self).conns@ == old(self).conns@,
            final(self).num == old(self).num,
    {
        self.waiters.push_back(waiter);
    }
}

} // verus!
