use vstd::prelude::*;

use crate::http::ServiceError;

verus! {

/// The fixed acquisition timeout, in milliseconds: an acquirer that is not
/// served within this bound fails with `ServiceError::PoolTimeout`.
pub const ACQUIRE_TIMEOUT_MS: u64 = 1000;

/// Abstract state of the connection pool: its capacity, how many connections
/// are currently checked out, the queue of waiting acquirers (front is served
/// first), and the next waiter ticket to hand out.
#[verifier::ext_equal]
pub ghost struct PoolView {
    pub capacity: nat,
    pub checked_out: nat,
    pub waiters: Seq<u64>,
    pub next_ticket: u64,
}

impl PoolView {
    /// Pool well-formedness: capacity is positive, checked-out connections
    /// never exceed capacity, acquirers wait only while the pool is
    /// saturated, and waiter tickets are distinct and below the next ticket.
    pub open spec fn wf(self) -> bool {
        &&& 1 <= self.capacity
        &&& self.checked_out <= self.capacity
        &&& (self.waiters.len() > 0 ==> self.checked_out == self.capacity)
        &&& (forall|i: int| 0 <= i < self.waiters.len() ==> self.waiters[i] < self.next_ticket)
        &&& (forall|i: int, j: int|
            0 <= i < j < self.waiters.len() ==> self.waiters[i] != self.waiters[j])
    }

    /// Every connection is checked out.
    pub open spec fn saturated(self) -> bool {
        self.checked_out == self.capacity
    }
}

/// What an acquire attempt yields at once: a connection, or a place in the
/// waiter queue under the given ticket.
#[derive(Clone, Copy, Debug, PartialEq, Eq, Structural)]
pub enum AcquireOutcome {
    Acquired,
    Enqueued(u64),
}

/// The acquire transition: grant a connection while one is free, else enqueue
/// the caller as the newest waiter.
pub open spec fn acquire_transition(p: PoolView) -> (PoolView, AcquireOutcome) {
    if p.checked_out < p.capacity {
        (
            PoolView {
                capacity: p.capacity,
                checked_out: p.checked_out + 1,
                waiters: p.waiters,
                next_ticket: p.next_ticket,
            },
            AcquireOutcome::Acquired,
        )
    } else {
        (
            PoolView {
                capacity: p.capacity,
                checked_out: p.checked_out,
                waiters: p.waiters.push(p.next_ticket),
                next_ticket: (p.next_ticket + 1) as u64,
            },
            AcquireOutcome::Enqueued(p.next_ticket),
        )
    }
}

/// The release transition: hand the freed connection to the waiter at the
/// front of the queue if there is one (the connection stays checked out),
/// else return it to the idle set.
pub open spec fn release_transition(p: PoolView) -> (PoolView, Option<u64>) {
    if p.waiters.len() > 0 {
        (
            PoolView {
                capacity: p.capacity,
                checked_out: p.checked_out,
                waiters: p.waiters.drop_first(),
                next_ticket: p.next_ticket,
            },
            Some(p.waiters[0]),
        )
    } else {
        (
            PoolView {
                capacity: p.capacity,
                checked_out: (p.checked_out - 1) as nat,
                waiters: p.waiters,
                next_ticket: p.next_ticket,
            },
            None,
        )
    }
}

/// Removes the first occurrence of a ticket from a waiter queue.
pub open spec fn remove_ticket(s: Seq<u64>, t: u64) -> Seq<u64>
    decreases s.len(),
{
    if s.len() == 0 {
        s
    } else if s[0] == t {
        s.drop_first()
    } else {
        seq![s[0]] + remove_ticket(s.drop_first(), t)
    }
}

/// The timeout transition: the acquirer holding the ticket gives up its place
/// in the queue; nothing else changes.
pub open spec fn timeout_transition(p: PoolView, t: u64) -> PoolView {
    PoolView {
        capacity: p.capacity,
        checked_out: p.checked_out,
        waiters: remove_ticket(p.waiters, t),
        next_ticket: p.next_ticket,
    }
}

/// Removing a ticket whose first occurrence is at index `i` removes exactly
/// that index.
proof fn lemma_remove_first_occurrence(s: Seq<u64>, t: u64, i: int)
    requires
        0 <= i < s.len(),
        s[i] == t,
        forall|j: int| 0 <= j < i ==> s[j] != t,
    ensures
        remove_ticket(s, t) =~= s.remove(i),
    decreases i,
{
    if i == 0 {
        assert(remove_ticket(s, t) =~= s.remove(0));
    } else {
        lemma_remove_first_occurrence(s.drop_first(), t, i - 1);
        assert(seq![s[0]] + s.drop_first().remove(i - 1) =~= s.remove(i));
    }
}

/// The bounded connection pool, modelled by its accounting state. The
/// connections themselves live in the backend driver; this type carries the
/// capacity bound, the checked-out count, and the FIFO waiter queue that the
/// driver's synchronization discipline maintains.
pub struct Pool {
    pub capacity: usize,
    pub checked_out: usize,
    pub waiters: Vec<u64>,
    pub next_ticket: u64,
}

impl View for Pool {
    type V = PoolView;

    open spec fn view(&self) -> PoolView {
        PoolView {
            capacity: self.capacity as nat,
            checked_out: self.checked_out as nat,
            waiters: self.waiters@,
            next_ticket: self.next_ticket,
        }
    }
}

impl Pool {
    /// A fresh pool: no connection checked out, nobody waiting.
    pub fn new(capacity: usize) -> (p: Pool)
        requires
            1 <= capacity,
        ensures
            p@.wf(),
            p@.capacity == capacity,
            p@.checked_out == 0,
            p@.waiters.len() == 0,
            p@.next_ticket == 0,
    {
        Pool { capacity, checked_out: 0, waiters: Vec::new(), next_ticket: 0 }
    }

    /// Tries to check a connection out. While a connection is free it is
    /// granted at once; under saturation the caller is enqueued, to be served
    /// in arrival order (FIFO) or to time out.
    pub fn acquire(&mut self) -> (r: AcquireOutcome)
        requires
            old(self)@.wf(),
            old(self)@.next_ticket < u64::MAX,
        ensures
            final(self)@.wf(),
            final(self)@ == acquire_transition(old(self)@).0,
            r == acquire_transition(old(self)@).1,
    {
        if self.checked_out < self.capacity {
            self.checked_out = self.checked_out + 1;
            proof {
                assert(self@ =~= acquire_transition(old(self)@).0);
            }
            AcquireOutcome::Acquired
        } else {
            let t = self.next_ticket;
            self.waiters.push(t);
            self.next_ticket = self.next_ticket + 1;
            proof {
                assert(self@ =~= acquire_transition(old(self)@).0);
            }
            AcquireOutcome::Enqueued(t)
        }
    }

    /// Returns a checked-out connection. If anyone is waiting, the connection
    /// is handed to the front waiter (it stays checked out) and that waiter's
    /// ticket is returned; otherwise the connection goes back to the idle set.
    pub fn release(&mut self) -> (served: Option<u64>)
        requires
            old(self)@.wf(),
            old(self)@.checked_out >= 1,
        ensures
            final(self)@.wf(),
            final(self)@ == release_transition(old(self)@).0,
            served == release_transition(old(self)@).1,
    {
        if self.waiters.len() > 0 {
            let t = self.waiters.remove(0);
            proof {
                assert(self.waiters@ =~= old(self).waiters@.drop_first());
                assert(self@ =~= release_transition(old(self)@).0);
            }
            Some(t)
        } else {
            self.checked_out = self.checked_out - 1;
            proof {
                assert(self@ =~= release_transition(old(self)@).0);
            }
            None
        }
    }

    /// The waiter holding the given ticket gives up after the acquisition
    /// timeout: its place in the queue is dropped and the attempt fails with
    /// `PoolTimeout`.
    pub fn on_timeout(&mut self, ticket: u64) -> (e: ServiceError)
        requires
            old(self)@.wf(),
            old(self)@.waiters.contains(ticket),
        ensures
            final(self)@.wf(),
            final(self)@ == timeout_transition(old(self)@, ticket),
            e == ServiceError::PoolTimeout,
    {
        let mut i: usize = 0;
        while i < self.waiters.len()
            invariant
                *self == *old(self),
                old(self)@.wf(),
                i <= self.waiters.len(),
                forall|j: int| 0 <= j < i ==> self.waiters@[j] != ticket,
                self.waiters@.contains(ticket),
            decreases self.waiters.len() - i,
        {
            if self.waiters[i] == ticket {
                self.waiters.remove(i);
                proof {
                    lemma_remove_first_occurrence(old(self).waiters@, ticket, i as int);
                    assert(self@ =~= timeout_transition(old(self)@, ticket));
                    let s0 = old(self).waiters@;
                    let s1 = self.waiters@;
                    let pv0 = old(self)@;
                    assert(pv0.waiters == s0);
                    assert(pv0.next_ticket == self.next_ticket);
                    assert(forall|x: int| 0 <= x < s0.len() ==> s0[x] < pv0.next_ticket);
                    assert(forall|x: int, y: int| 0 <= x < y < s0.len() ==> s0[x] != s0[y]);
                    assert(s1 == s0.remove(i as int));
                    let left = s0.subrange(0, i as int);
                    let right = s0.subrange(i as int + 1, s0.len() as int);
                    assert(s1 =~= left + right);
                    assert forall|k: int| 0 <= k < s1.len() implies s1[k]
                        < self.next_ticket by {
                        if k < i {
                            assert(s1[k] == left[k]);
                            assert(left[k] == s0[k]);
                        } else {
                            assert(s1[k] == right[k - i]);
                            assert(right[k - i] == s0[k + 1]);
                        }
                    }
                    assert forall|k: int, l: int| 0 <= k < l < s1.len() implies s1[k]
                        != s1[l] by {
                        let k0: int = if k < i { k } else { k + 1 };
                        let l0: int = if l < i { l } else { l + 1 };
                        if k < i {
                            assert(s1[k] == left[k]);
                            assert(left[k] == s0[k]);
                        } else {
                            assert(s1[k] == right[k - i]);
                            assert(right[k - i] == s0[k + 1]);
                        }
                        if l < i {
                            assert(s1[l] == left[l]);
                            assert(left[l] == s0[l]);
                        } else {
                            assert(s1[l] == right[l - i]);
                            assert(right[l - i] == s0[l + 1]);
                        }
                        assert(s1[k] == s0[k0] && s1[l] == s0[l0]);
                        assert(s0[k0] != s0[l0]);
                    }
                }
                return ServiceError::PoolTimeout;
            }
            i += 1;
        }
        proof {
            let j = choose|j: int|
                0 <= j < self.waiters@.len() && self.waiters@[j] == ticket;
            assert(self.waiters@[j] == ticket);
            assert(false);
        }
        ServiceError::PoolTimeout
    }
}

/// Under saturation an acquire grants nothing: the caller is enqueued at the
/// back of the waiter queue, no connection changes hands, and if no release
/// reaches that ticket before the timeout, giving up leaves the pool exactly
/// as it stood (apart from the advanced ticket counter) and yields
/// `PoolTimeout`.
pub proof fn lemma_saturated_acquire_times_out(p: PoolView)
    requires
        p.wf(),
        p.saturated(),
    ensures
        acquire_transition(p).1 matches AcquireOutcome::Enqueued(t) && {
            let p1 = acquire_transition(p).0;
            &&& p1.checked_out == p.checked_out
            &&& p1.waiters == p.waiters.push(t)
            &&& p1.waiters.contains(t)
            &&& timeout_transition(p1, t).waiters =~= p.waiters
            &&& timeout_transition(p1, t).checked_out == p.checked_out
        },
{
    let t = p.next_ticket;
    let p1 = acquire_transition(p).0;
    assert(p1.waiters[p.waiters.len() as int] == t);
    assert(forall|j: int| 0 <= j < p.waiters.len() ==> p1.waiters[j] != t);
    lemma_remove_first_occurrence(p1.waiters, t, p.waiters.len() as int);
    assert(p1.waiters.remove(p.waiters.len() as int) =~= p.waiters);
}

/// A release while acquirers wait serves the front of the queue: the first
/// waiter receives the connection, the rest move up one place, and the
/// checked-out count is unchanged.
pub proof fn lemma_release_serves_front_waiter(p: PoolView)
    requires
        p.wf(),
        p.waiters.len() > 0,
    ensures
        release_transition(p).1 == Some(p.waiters[0]),
        release_transition(p).0.waiters =~= p.waiters.drop_first(),
        release_transition(p).0.checked_out == p.checked_out,
{
}

/// A release before the timeout satisfies a blocked acquirer: from a
/// saturated pool with an empty queue, an acquire is enqueued, and the next
/// release serves exactly that acquirer's ticket.
pub proof fn lemma_release_before_timeout_serves_acquirer(p: PoolView)
    requires
        p.wf(),
        p.saturated(),
        p.waiters.len() == 0,
    ensures
        acquire_transition(p).1 matches AcquireOutcome::Enqueued(t)
            && release_transition(acquire_transition(p).0).1 == Some(t),
{
}

/// Every transition preserves well-formedness; in particular the number of
/// checked-out connections never exceeds the pool's capacity.
pub proof fn lemma_transitions_preserve_wf(p: PoolView, t: u64)
    requires
        p.wf(),
        p.next_ticket < u64::MAX,
    ensures
        acquire_transition(p).0.wf(),
        p.checked_out >= 1 ==> release_transition(p).0.wf(),
        p.waiters.contains(t) ==> timeout_transition(p, t).wf(),
{
    let pa = acquire_transition(p).0;
    assert(pa.wf());
    if p.checked_out >= 1 {
        assert(release_transition(p).0.wf());
    }
    if p.waiters.contains(t) {
        let j = choose|j: int| 0 <= j < p.waiters.len() && p.waiters[j] == t;
        assert(forall|k: int| 0 <= k < j ==> p.waiters[k] != t);
        lemma_remove_first_occurrence(p.waiters, t, j);
        assert(timeout_transition(p, t).wf());
    }
}

/// Initializes the pool from the outcome of the backend connection attempt.
/// If the backend was unreachable the error is returned as-is — startup has
/// no retry and treats this as fatal; otherwise the pool starts empty with
/// the given capacity.
pub fn init_pool(backend_reachable: bool, capacity: usize) -> (r: Result<Pool, ServiceError>)
    requires
        1 <= capacity,
    ensures
        backend_reachable ==> (r matches Ok(p) && p@.wf() && p@.capacity == capacity
            && p@.checked_out == 0 && p@.waiters.len() == 0 && p@.next_ticket == 0),
        !backend_reachable ==> r == Err::<Pool, ServiceError>(ServiceError::ConnectionError),
{
    if backend_reachable {
        Ok(Pool::new(capacity))
    } else {
        Err(ServiceError::ConnectionError)
    }
}

} // verus!
