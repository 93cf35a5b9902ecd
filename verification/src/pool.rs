//! The admission discipline of the dual connection pool.
//!
//! The pool holds two semaphores mirroring its two physical pools: a writer
//! semaphore of capacity one and a reader semaphore of the reader pool's
//! capacity. Holding a permit authorizes one unit of concurrent access, so
//! the bounds proved here are the pool's concurrency guarantees: at most the
//! configured number of readers, and at most one writer, are ever admitted
//! at a time. The host's scheduler performs the actual waiting; the
//! decisions it acts on are the functions of this module.

use vstd::prelude::*;

use crate::error::Error;

verus! {

/// The capacity of one underlying pool: writer pools always have capacity
/// one — that, with the writer permit of capacity one, is what makes holding
/// a write permit mean exclusive writer access.
pub fn pool_capacity(is_write: bool, max_read_connections: u32) -> (r: u32)
    ensures
        is_write ==> r == 1,
        !is_write ==> r == max_read_connections,
{
    if is_write {
        1
    } else {
        max_read_connections
    }
}

/// The minimum idle connections of one underlying pool: the single writer
/// connection is kept open; readers follow the configuration.
pub fn pool_min_idle(is_write: bool, min_read_connections: Option<u32>) -> (r: Option<u32>)
    ensures
        is_write ==> r == Some(1u32),
        !is_write ==> r == min_read_connections,
{
    if is_write {
        Some(1)
    } else {
        min_read_connections
    }
}

/// The admission state of the pool's two semaphores: how many reader permits
/// and how many writer permits are currently out.
#[derive(Clone, Copy, Debug, PartialEq, Eq, Structural)]
pub struct PoolState {
    pub reader_capacity: u32,
    pub readers_active: u32,
    pub writers_active: u32,
}

/// One admission event: a permit is requested or returned.
#[derive(Clone, Copy, Debug, PartialEq, Eq, Structural)]
pub enum PoolEvent {
    AcquireRead,
    ReleaseRead,
    AcquireWrite,
    ReleaseWrite,
}

impl PoolState {
    /// The admission bounds: never more reader permits out than the reader
    /// capacity, and never more than one writer permit out.
    pub open spec fn wf(self) -> bool {
        self.readers_active <= self.reader_capacity && self.writers_active <= 1
    }

    /// A fresh pool: no permit is out.
    pub fn new(reader_capacity: u32) -> (r: Self)
        ensures
            r.wf(),
            r.reader_capacity == reader_capacity,
            r.readers_active == 0,
            r.writers_active == 0,
    {
        PoolState { reader_capacity, readers_active: 0, writers_active: 0 }
    }

    /// Requests a reader permit: granted exactly when one is free. A refused
    /// request changes nothing — the caller waits or times out.
    pub fn try_acquire_read(&mut self) -> (granted: bool)
        requires
            old(self).wf(),
        ensures
            final(self).wf(),
            *final(self) == step(*old(self), PoolEvent::AcquireRead),
            granted == (old(self).readers_active < old(self).reader_capacity),
            !granted ==> *final(self) == *old(self),
    {
        if self.readers_active < self.reader_capacity {
            self.readers_active = self.readers_active + 1;
            true
        } else {
            false
        }
    }

    /// Requests the writer permit: granted exactly when no writer is active,
    /// which is what makes write transactions totally ordered.
    pub fn try_acquire_write(&mut self) -> (granted: bool)
        requires
            old(self).wf(),
        ensures
            final(self).wf(),
            *final(self) == step(*old(self), PoolEvent::AcquireWrite),
            granted == (old(self).writers_active == 0),
            !granted ==> *final(self) == *old(self),
    {
        if self.writers_active == 0 {
            self.writers_active = 1;
            true
        } else {
            false
        }
    }

    /// Returns a reader permit.
    pub fn release_read(&mut self)
        requires
            old(self).wf(),
            old(self).readers_active >= 1,
        ensures
            final(self).wf(),
            *final(self) == step(*old(self), PoolEvent::ReleaseRead),
            final(self).readers_active == old(self).readers_active - 1,
    {
        self.readers_active = self.readers_active - 1;
    }

    /// Returns the writer permit.
    pub fn release_write(&mut self)
        requires
            old(self).wf(),
        ensures
            final(self).wf(),
            *final(self) == step(*old(self), PoolEvent::ReleaseWrite),
            final(self).writers_active == 0,
    {
        self.writers_active = 0;
    }
}

/// What one admission event does to the state: an acquisition is granted
/// only when a permit is free, and a refused acquisition changes nothing.
pub open spec fn step(s: PoolState, e: PoolEvent) -> PoolState {
    match e {
        PoolEvent::AcquireRead => if s.readers_active < s.reader_capacity {
            PoolState { readers_active: (s.readers_active + 1) as u32, ..s }
        } else {
            s
        },
        PoolEvent::ReleaseRead => if s.readers_active > 0 {
            PoolState { readers_active: (s.readers_active - 1) as u32, ..s }
        } else {
            s
        },
        PoolEvent::AcquireWrite => if s.writers_active == 0 {
            PoolState { writers_active: 1u32, ..s }
        } else {
            s
        },
        PoolEvent::ReleaseWrite => PoolState { writers_active: 0u32, ..s },
    }
}

/// The state after a sequence of admission events.
pub open spec fn run_events(s: PoolState, events: Seq<PoolEvent>) -> PoolState
    decreases events.len(),
{
    if events.len() == 0 {
        s
    } else {
        step(run_events(s, events.drop_last()), events.last())
    }
}

/// The pool's concurrency guarantee: from a well-formed state, any sequence
/// of acquisitions and releases keeps at most `reader_capacity` reader
/// permits and at most one writer permit out, and never changes the
/// capacity. At most the configured number of reader closures, and at most
/// one writer closure, can therefore ever run concurrently.
pub proof fn lemma_admission_bounds(s: PoolState, events: Seq<PoolEvent>)
    requires
        s.wf(),
    ensures
        run_events(s, events).wf(),
        run_events(s, events).reader_capacity == s.reader_capacity,
        run_events(s, events).readers_active <= s.reader_capacity,
        run_events(s, events).writers_active <= 1,
    decreases events.len(),
{
    if events.len() > 0 {
        lemma_admission_bounds(s, events.drop_last());
    }
}

/// An exhausted reader pool admits nobody: with every reader permit out, an
/// acquisition event changes nothing, so the attempt can only wait for a
/// release or give up when its timeout expires.
pub proof fn lemma_exhausted_pool_admits_nobody(s: PoolState)
    requires
        s.wf(),
        s.readers_active == s.reader_capacity,
    ensures
        step(s, PoolEvent::AcquireRead) == s,
{
}

/// The outcome of one acquisition attempt. No permit within the timeout is
/// the timeout error — nothing was acquired, so nothing is released, and the
/// caller may retry; with a permit, a failed physical checkout is a
/// connection failure carrying its cause; otherwise the connection is handed
/// out. A zero timeout against an exhausted pool therefore fails with the
/// timeout error, never with a connection error.
pub fn acquire_outcome<C>(permit_granted: bool, checkout: Result<C, String>) -> (r: Result<
    C,
    Error,
>)
    ensures
        !permit_granted ==> (r matches Err(e) && e == Error::ConnectionPermitRetrievalTimeout),
        permit_granted ==> match checkout {
            Ok(c) => r matches Ok(rc) && rc == c,
            Err(t) => r matches Err(e) && e == Error::ConnectionFailure(t),
        },
{
    if !permit_granted {
        return Err(Error::ConnectionPermitRetrievalTimeout);
    }
    match checkout {
        Ok(c) => Ok(c),
        Err(t) => Err(Error::ConnectionFailure(t)),
    }
}

/// The teardown of a connection holder, by what it has done so far. The
/// permit is released only strictly after the connection is closed, so a
/// newly admitted acquirer never observes pool pressure from a connection
/// that is still being torn down.
pub struct TeardownState {
    pub connection_closed: bool,
    pub permit_released: bool,
}

impl TeardownState {
    /// The teardown ordering: a released permit means the connection was
    /// already closed.
    pub open spec fn wf(self) -> bool {
        self.permit_released ==> self.connection_closed
    }

    /// Teardown begins with the connection open and the permit held.
    pub fn begin() -> (r: Self)
        ensures
            r.wf(),
            !r.connection_closed,
            !r.permit_released,
    {
        TeardownState { connection_closed: false, permit_released: false }
    }

    /// Closes the physical connection.
    pub fn close_connection(&mut self)
        requires
            old(self).wf(),
        ensures
            final(self).wf(),
            final(self).connection_closed,
            final(self).permit_released == old(self).permit_released,
    {
        self.connection_closed = true;
    }

    /// Releases the permit; only the closed connection allows it.
    pub fn release_permit(&mut self)
        requires
            old(self).wf(),
            old(self).connection_closed,
        ensures
            final(self).wf(),
            final(self).permit_released,
            final(self).connection_closed,
    {
        self.permit_released = true;
    }
}

} // verus!
