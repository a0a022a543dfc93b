use vstd::prelude::*;
use vstd::rwlock::{RwLock, RwLockPredicate, WriteHandle};
use std::sync::Arc;
use crate::bus::{Bus, BusError};

verus! {

/// The lock predicate for a shared bus: any transport value may be
/// stored behind the lock.
pub struct AnyBus;

impl RwLockPredicate<Bus> for AnyBus {
    open spec fn inv(self, v: Bus) -> bool {
        true
    }
}

/// Exclusive, serializable access to one physical I2C transport.
///
/// The handle is reference-counted and lock-guarded: every driver
/// layered over the same wire holds a clone of one handle, never an
/// independent transport, so mutual exclusion between the multiplexer
/// controller and any downstream device is enforced structurally. The
/// lock is released on every exit path of the scoped operations below,
/// so a failed transaction can never leave the bus held.
pub struct BusHandle {
    lock: Arc<RwLock<Bus, AnyBus>>,
}

/// Relies on std::sync::Arc::clone: the clone is the same shared
/// allocation, here holding the same lock over the same transport.
#[verifier::external_body]
fn clone_arc(v: &Arc<RwLock<Bus, AnyBus>>) -> (r: Arc<RwLock<Bus, AnyBus>>)
    ensures
        r == *v,
{
    Arc::clone(v)
}

impl BusHandle {
    /// The lock guarding the transport; two handles over the same wire
    /// share it.
    pub closed spec fn lock_of(&self) -> RwLock<Bus, AnyBus> {
        *self.lock
    }

    /// Take sole ownership of a transport and guard it behind a lock.
    pub fn new(bus: Bus) -> (h: BusHandle) {
        BusHandle { lock: Arc::new(RwLock::new(bus, Ghost(AnyBus))) }
    }

    /// Another handle to the same transport: the clone shares the same
    /// lock, it never duplicates the wire.
    pub fn share(&self) -> (h: BusHandle)
        ensures
            h.lock_of() == self.lock_of(),
    {
        BusHandle { lock: clone_arc(&self.lock) }
    }

    /// Scoped acquisition: blocks until no other holder has the
    /// transport, then hands over exclusive ownership of it together
    /// with the guard that gives it back. The caller must release the
    /// guard on every exit path; the transport cannot be touched again
    /// through this handle until it does.
    pub fn acquire<'a>(&'a self) -> (ret: (Bus, WriteHandle<'a, Bus, AnyBus>))
        ensures
            ret.1.rwlock() == self.lock_of(),
    {
        self.lock.acquire_write()
    }

    /// One whole write transaction under one lock acquisition: acquire
    /// the transport, attempt the write, release on every path.
    pub fn write(&self, addr: u8, data: &[u8]) -> (r: Result<(), BusError>) {
        let (mut bus, guard) = self.lock.acquire_write();
        let r = bus.write(addr, data);
        guard.release_write(bus);
        r
    }

    /// One whole write-then-read transaction under one lock
    /// acquisition; a successful read hands back exactly
    /// `response_len` bytes.
    pub fn write_read(&self, addr: u8, data: &[u8], response_len: usize) -> (r: Result<
        Vec<u8>,
        BusError,
    >)
        ensures
            r matches Ok(b) ==> b@.len() == response_len,
    {
        let (mut bus, guard) = self.lock.acquire_write();
        let r = bus.write_read(addr, data, response_len);
        guard.release_write(bus);
        r
    }
}

} // verus!
