//! The spin mutex: a lock flag that guards a value, handed out through a
//! guard while the lock is held.
//!
//! The guarded value moves into the guard on acquisition and back on
//! release, so while the lock is held nothing but the guard can reach it.
use vstd::prelude::*;

verus! {

/// The compare-and-swap from unlocked to locked: the lock flag afterwards
/// and whether this attempt acquired the lock.
pub open spec fn cas_acquire(locked: bool) -> (bool, bool) {
    if locked {
        (true, false)
    } else {
        (true, true)
    }
}

pub struct SpinMutex<T> {
    inner: Option<T>,
}

/// The guard of a held lock; it holds the guarded value.
pub struct SpinMutexGuard<T> {
    value: T,
}

impl<T> View for SpinMutex<T> {
    /// The guarded value while the lock is free; `None` while it is held.
    type V = Option<T>;

    closed spec fn view(&self) -> Option<T> {
        self.inner
    }
}

impl<T> View for SpinMutexGuard<T> {
    type V = T;

    closed spec fn view(&self) -> T {
        self.value
    }
}

impl<T> SpinMutex<T> {
    /// An unlocked mutex that guards `data`.
    pub fn new(data: T) -> (r: SpinMutex<T>)
        ensures
            r@ == Some(data),
    {
        SpinMutex { inner: Some(data) }
    }

    pub fn is_locked(&self) -> (r: bool)
        ensures
            r == self@ is None,
    {
        self.inner.is_none()
    }

    /// One compare-and-swap attempt: the guard when the lock was free, which
    /// is then held; `None` when it was already held.
    pub fn try_lock(&mut self) -> (r: Option<SpinMutexGuard<T>>)
        ensures
            cas_acquire(old(self)@ is None) == (final(self)@ is None, r is Some),
            old(self)@ is None ==> final(self)@ == old(self)@,
            r matches Some(g) ==> old(self)@ == Some(g@),
    {
        match self.inner.take() {
            Some(v) => Some(SpinMutexGuard { value: v }),
            None => None,
        }
    }

    /// Acquires the free lock. (On a held lock the spin would never end.)
    pub fn lock(&mut self) -> (r: SpinMutexGuard<T>)
        requires
            old(self)@ is Some,
        ensures
            final(self)@ is None,
            old(self)@ == Some(r@),
    {
        let v = self.inner.take().unwrap();
        SpinMutexGuard { value: v }
    }

    /// Releases the held lock: the guard's value becomes the guarded value.
    pub fn unlock(&mut self, guard: SpinMutexGuard<T>)
        requires
            old(self)@ is None,
        ensures
            final(self)@ == Some(guard@),
    {
        self.inner = Some(guard.value);
    }
}

impl<T> SpinMutexGuard<T> {
    pub fn get(&self) -> (r: &T)
        ensures
            *r == self@,
    {
        &self.value
    }

    pub fn get_mut(&mut self) -> (r: &mut T)
        ensures
            *r == old(self)@,
            final(self)@ == *final(r),
    {
        &mut self.value
    }
}

/// A step of one thread on a shared spin mutex.
pub enum LockEvent {
    /// Thread `t` makes one compare-and-swap attempt.
    Acquire(u64),
    /// Thread `t` drops its guard, if it holds one.
    Release(u64),
}

/// The shared lock flag and the threads that hold a guard.
pub struct LockModel {
    pub locked: bool,
    pub holders: Set<u64>,
}

pub open spec fn lock_step(s: LockModel, ev: LockEvent) -> LockModel {
    match ev {
        LockEvent::Acquire(t) => if cas_acquire(s.locked).1 {
            LockModel { locked: cas_acquire(s.locked).0, holders: s.holders.insert(t) }
        } else {
            s
        },
        LockEvent::Release(t) => if s.holders.contains(t) {
            LockModel { locked: false, holders: s.holders.remove(t) }
        } else {
            s
        },
    }
}

/// The state after `evs`, from a free lock that nobody holds.
pub open spec fn lock_run(evs: Seq<LockEvent>) -> LockModel
    decreases evs.len(),
{
    if evs.len() == 0 {
        LockModel { locked: false, holders: Set::empty() }
    } else {
        lock_step(lock_run(evs.drop_last()), evs.last())
    }
}

/// Mutual exclusion: in every interleaving of attempts and releases, at
/// most one thread holds a guard, the lock is held exactly when one does,
/// and while it is held no attempt by any thread succeeds.
pub proof fn lemma_mutual_exclusion(evs: Seq<LockEvent>)
    ensures
        lock_run(evs).holders.finite(),
        lock_run(evs).holders.len() <= 1,
        lock_run(evs).locked <==> lock_run(evs).holders.len() == 1,
        forall|t: u64|
            lock_run(evs).locked ==> #[trigger] lock_step(lock_run(evs), LockEvent::Acquire(t))
                == lock_run(evs),
    decreases evs.len(),
{
    if evs.len() > 0 {
        lemma_mutual_exclusion(evs.drop_last());
        let s = lock_run(evs.drop_last());
        match evs.last() {
            LockEvent::Acquire(t) => {
                if !s.locked {
                    assert(s.holders =~= Set::empty());
                    assert(s.holders.insert(t) =~= set![t]);
                }
            },
            LockEvent::Release(t) => {
                if s.holders.contains(t) {
                    vstd::set_lib::lemma_set_empty_equivalency_len(s.holders.remove(t));
                }
            },
        }
    }
}

} // verus!
