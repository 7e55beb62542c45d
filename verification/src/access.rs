//! The per-resource access gate: any number of concurrent readers, or one
//! exclusive writer, never both.
//!
//! Every GPU-visible resource a device tracks carries one of these locks.
//! A violation is a fault the caller cannot recover from — it means host
//! code would touch memory the device may still be consuming — so the
//! embedding program is expected to abort on it.

use vstd::prelude::*;

verus! {

/// A refused lock operation.
#[derive(Debug, Copy, Clone, PartialEq, Eq, Structural, Hash)]
pub enum AccessError {
    /// The resource is held by a writer.
    WriteHeld,
    /// The resource is held by readers.
    ReadersHeld,
    /// More concurrent readers than the counter can count.
    TooManyReaders,
    /// A release without a matching acquisition.
    NotHeld,
    /// A write lock was asked of a read-only aggregate.
    ReadOnlyAggregate,
}

/// The read/write gate of one resource: a count of outstanding readers and
/// an exclusive-writer flag.
#[derive(Debug, Copy, Clone, PartialEq, Eq)]
pub struct AccessLock {
    readers: u32,
    writer: bool,
}

impl AccessLock {
    /// A lock with no holds, as a specification value.
    pub closed spec fn spec_free() -> Self {
        AccessLock { readers: 0, writer: false }
    }

    /// The number of outstanding read holds.
    pub closed spec fn readers(&self) -> nat {
        self.readers as nat
    }

    /// Whether a writer holds the lock.
    pub closed spec fn writer(&self) -> bool {
        self.writer
    }

    /// Whether the lock is free of holds altogether.
    pub open spec fn is_free(&self) -> bool {
        self.readers() == 0 && !self.writer()
    }

    /// Whether one more read hold may be taken: no writer, and room in the
    /// counter.
    pub open spec fn can_read(&self) -> bool {
        !self.writer() && self.readers() < u32::MAX
    }

    /// Whether the write hold may be taken: no writer and no reader.
    pub open spec fn can_write(&self) -> bool {
        !self.writer() && self.readers() == 0
    }

    /// The lock with one more read hold.
    pub closed spec fn spec_acquire_read(self) -> Self {
        AccessLock { readers: (self.readers + 1) as u32, writer: self.writer }
    }

    /// The lock with one read hold given back.
    pub closed spec fn spec_release_read(self) -> Self {
        AccessLock { readers: (self.readers - 1) as u32, writer: self.writer }
    }

    /// The lock with the write hold taken.
    pub closed spec fn spec_acquire_write(self) -> Self {
        AccessLock { readers: self.readers, writer: true }
    }

    /// The lock with the write hold given back.
    pub closed spec fn spec_release_write(self) -> Self {
        AccessLock { readers: self.readers, writer: false }
    }

    /// A fresh lock with no holds.
    pub fn new() -> (r: Self)
        ensures
            r.is_free(),
            r == AccessLock::spec_free(),
    {
        AccessLock { readers: 0, writer: false }
    }

    /// Take a shared read hold.  Succeeds exactly when no writer holds the
    /// lock and the counter has room; a refused call leaves the lock as it
    /// was.
    pub fn acquire_read(&mut self) -> (r: Result<(), AccessError>)
        ensures
            r is Ok <==> old(self).can_read(),
            r is Ok ==> *final(self) == old(self).spec_acquire_read(),
            r is Err ==> *final(self) == *old(self),
            r matches Err(e) ==> e == (if old(self).writer() {
                AccessError::WriteHeld
            } else {
                AccessError::TooManyReaders
            }),
    {
        if self.writer {
            Err(AccessError::WriteHeld)
        } else if self.readers == u32::MAX {
            Err(AccessError::TooManyReaders)
        } else {
            self.readers = self.readers + 1;
            Ok(())
        }
    }

    /// Give back a read hold.  Succeeds exactly when a read hold is
    /// outstanding.
    pub fn release_read(&mut self) -> (r: Result<(), AccessError>)
        ensures
            r is Ok <==> old(self).readers() > 0,
            r is Ok ==> *final(self) == old(self).spec_release_read(),
            r is Err ==> *final(self) == *old(self) && r == Err::<(), AccessError>(
                AccessError::NotHeld,
            ),
    {
        if self.readers == 0 {
            Err(AccessError::NotHeld)
        } else {
            self.readers = self.readers - 1;
            Ok(())
        }
    }

    /// Take the exclusive write hold.  Succeeds exactly when the lock has
    /// no holds at all; a refused call leaves the lock as it was.
    pub fn acquire_write(&mut self) -> (r: Result<(), AccessError>)
        ensures
            r is Ok <==> old(self).can_write(),
            r is Ok ==> *final(self) == old(self).spec_acquire_write(),
            r is Err ==> *final(self) == *old(self),
            r matches Err(e) ==> e == (if old(self).writer() {
                AccessError::WriteHeld
            } else {
                AccessError::ReadersHeld
            }),
    {
        if self.writer {
            Err(AccessError::WriteHeld)
        } else if self.readers > 0 {
            Err(AccessError::ReadersHeld)
        } else {
            self.writer = true;
            Ok(())
        }
    }

    /// Give back the write hold.  Succeeds exactly when a writer holds the
    /// lock.
    pub fn release_write(&mut self) -> (r: Result<(), AccessError>)
        ensures
            r is Ok <==> old(self).writer(),
            r is Ok ==> *final(self) == old(self).spec_release_write(),
            r is Err ==> *final(self) == *old(self) && r == Err::<(), AccessError>(
                AccessError::NotHeld,
            ),
    {
        if !self.writer {
            Err(AccessError::NotHeld)
        } else {
            self.writer = false;
            Ok(())
        }
    }

    /// The number of outstanding read holds, for inspection.
    pub fn reader_count(&self) -> (r: u32)
        ensures
            r == self.readers(),
    {
        self.readers
    }

    /// Whether a writer holds the lock, for inspection.
    pub fn write_held(&self) -> (r: bool)
        ensures
            r == self.writer(),
    {
        self.writer
    }
}

/// A free lock has no holds.
pub proof fn lemma_free_lock()
    ensures
        AccessLock::spec_free().is_free(),
        AccessLock::spec_free().can_read(),
        AccessLock::spec_free().can_write(),
{
}

/// How one read acquisition changes the lock, and that a matching release
/// undoes it exactly.
pub proof fn lemma_acquire_read_properties(l: AccessLock)
    ensures
        l.spec_acquire_read().writer() == l.writer(),
        l.can_read() ==> l.spec_acquire_read().readers() == l.readers() + 1,
        l.can_read() ==> l.spec_acquire_read().spec_release_read() == l,
{
}

/// How the write hold changes the lock, and that giving it back undoes
/// taking it exactly.
pub proof fn lemma_write_hold_properties(l: AccessLock)
    ensures
        l.spec_acquire_write().writer(),
        l.spec_acquire_write().readers() == l.readers(),
        l.spec_release_write().readers() == l.readers(),
        !l.spec_release_write().writer(),
        l.can_write() ==> l.spec_acquire_write().spec_release_write() == l,
{
}

/// Readers exclude the writer: while any read hold is outstanding, the
/// write hold cannot be taken, and while the write hold is outstanding,
/// nothing else can be taken.
pub proof fn lemma_access_exclusivity(l: AccessLock)
    ensures
        l.readers() > 0 ==> !l.can_write(),
        l.writer() ==> !l.can_write() && !l.can_read(),
{
}

/// Read holds share: where a lock admits two more readers, a first read
/// acquisition succeeds, a second still succeeds after it, and each of the
/// two holds can be given back on its own, in either order.
pub proof fn lemma_read_locks_share(l: AccessLock)
    requires
        !l.writer(),
        l.readers() + 2 <= u32::MAX,
    ensures
        l.can_read(),
        l.spec_acquire_read().can_read(),
        l.spec_acquire_read().spec_acquire_read().readers() > 0,
        l.spec_acquire_read().spec_acquire_read().spec_release_read().readers() > 0,
        l.spec_acquire_read().spec_acquire_read().spec_release_read().spec_release_read() == l,
{
}

} // verus!
