use vstd::pervasive::strictly_cloned;
use vstd::prelude::*;

use crate::lock::{lock_ops, teardown_ops, unlock_ops, Lock, LockPhase, NativeOp};
use crate::state::{State, StateCell};

verus! {

/// A container as its contracts see it.
pub struct ExclusiveView<T> {
    /// Who may touch the stored value.
    pub state: State,
    /// The stored value.
    pub data: T,
    /// Whether the native lock has been built.
    pub phase: LockPhase,
    /// Native lock calls decided on and not yet handed out, oldest first.
    pub pending: Seq<NativeOp>,
    /// How many blocking waiters have queued taking the native lock and not
    /// yet claimed the value.
    pub waiters: nat,
}

impl<T> ExclusiveView<T> {
    /// A container freshly built around `value`.
    pub open spec fn fresh(value: T) -> ExclusiveView<T> {
        ExclusiveView {
            state: State::Unlocked,
            data: value,
            phase: LockPhase::Uninitialized,
            pending: Seq::empty(),
            waiters: 0,
        }
    }

    /// A non-blocking `get` may lend the value out: the container is unlocked
    /// and no blocking waiter is about to claim it.
    pub open spec fn available(self) -> bool {
        self.state == State::Unlocked && self.waiters == 0
    }

    /// What a non-blocking `get` lends out: the value when the container is
    /// available, nothing otherwise.
    pub open spec fn got(self) -> Option<T> {
        if self.available() {
            Some(self.data)
        } else {
            None
        }
    }

    /// The container once a guard has been handed out on it.
    pub open spec fn acquired(self) -> ExclusiveView<T> {
        ExclusiveView {
            state: State::Locked,
            phase: LockPhase::Initialized,
            pending: self.pending + lock_ops(self.phase),
            ..self
        }
    }

    /// The container after a non-blocking `get`, successful or not.
    pub open spec fn after_get(self) -> ExclusiveView<T> {
        if self.available() {
            self.acquired()
        } else {
            self
        }
    }

    /// The container once its guard has been released, normally or while a
    /// fault was propagating.
    pub open spec fn released(self, faulted: bool) -> ExclusiveView<T> {
        ExclusiveView {
            state: if faulted { State::Poisoned } else { State::Unlocked },
            phase: LockPhase::Initialized,
            pending: self.pending + unlock_ops(self.phase),
            ..self
        }
    }

    /// The container once its value has been replaced by `value`.
    pub open spec fn replaced(self, value: T) -> ExclusiveView<T> {
        ExclusiveView {
            state: State::Unlocked,
            data: value,
            phase: LockPhase::Uninitialized,
            pending: self.pending + teardown_ops(self.phase),
            ..self
        }
    }

    /// The container once one more blocking waiter has queued taking the
    /// native lock.
    pub open spec fn wait_begun(self) -> ExclusiveView<T> {
        ExclusiveView {
            phase: LockPhase::Initialized,
            pending: self.pending + lock_ops(self.phase),
            waiters: self.waiters + 1,
            ..self
        }
    }

    /// The value may be replaced: no guard is out and no waiter holds the
    /// native lock that a replacement tears down.
    pub open spec fn can_replace(self) -> bool {
        self.state != State::Locked && self.waiters == 0
    }

    /// A blocking wait would not have to sleep and may hand out a guard at
    /// once: the container is neither lent out nor poisoned, and no other
    /// wait is under way.
    pub open spec fn can_wait(self) -> bool {
        self.available()
    }
}

/// A single-slot container that lends its value to at most one guard at a
/// time.
///
/// [`get`](LazyExclusive::get) hands out a [`Mut`] guard that borrows the
/// container when no other is out; the guard is given back through
/// [`Mut::release`], or through [`Mut::release_after_fault`] when its holder
/// ended abnormally, which poisons the container. Calls into the native lock
/// that blocking waiters sleep on are queued, in order, for
/// [`take_native_ops`](LazyExclusive::take_native_ops).
pub struct LazyExclusive<T> {
    state: StateCell,
    data: T,
    lock: Lock,
    pending: Vec<NativeOp>,
    waiters: usize,
}

impl<T> View for LazyExclusive<T> {
    type V = ExclusiveView<T>;

    closed spec fn view(&self) -> ExclusiveView<T> {
        ExclusiveView {
            state: self.state@,
            data: self.data,
            phase: self.lock@,
            pending: self.pending@,
            waiters: self.waiters as nat,
        }
    }
}

/// The exclusive guard on one container: it borrows that container for as
/// long as it lives, and reads and writes its value in place. A guard dropped
/// without being released leaves its container locked.
pub struct Mut<'a, T> {
    source: &'a mut LazyExclusive<T>,
}

impl<'a, T> Mut<'a, T> {
    /// The guarded container as it is now.
    pub closed spec fn current(&self) -> ExclusiveView<T> {
        (*self.source)@
    }

    /// The borrow of the guarded container that this guard holds; its
    /// `final` is the container as it will be once the guard is gone.
    pub closed spec fn source_ref(&self) -> &'a mut LazyExclusive<T> {
        self.source
    }
}

impl<'a, T> View for Mut<'a, T> {
    type V = T;

    /// What the guard reads: the guarded container's stored value.
    open spec fn view(&self) -> T {
        self.current().data
    }
}

impl<T> LazyExclusive<T> {
    pub fn new(data: T) -> (r: LazyExclusive<T>)
        ensures
            r@ == ExclusiveView::fresh(data),
    {
        LazyExclusive {
            state: StateCell::new(State::Unlocked),
            data,
            lock: Lock::new(),
            pending: Vec::new(),
            waiters: 0,
        }
    }

    fn queue(&mut self, ops: Vec<NativeOp>)
        ensures
            final(self)@ == (ExclusiveView { pending: old(self)@.pending + ops@, ..old(self)@ }),
    {
        let mut ops = ops;
        self.pending.append(&mut ops);
    }

    /// Lends the value out under a new guard, unless a guard is already out,
    /// the container is poisoned, or a blocking waiter is about to claim it.
    pub fn get(&mut self) -> (r: Option<Mut<'_, T>>)
        ensures
            r is Some <==> old(self)@.got() is Some,
            r is Some ==> r->0.current() == old(self)@.after_get() && r->0@ == old(self)@.got()->0
                && final(r->0.source_ref())@ == final(self)@,
            r is None ==> final(self)@ == old(self)@.after_get(),
    {
        if self.waiters > 0 {
            return None;
        }
        match self.state.get() {
            State::Unlocked => {
                self.state.set(State::Locked);
                let ops = self.lock.lock();
                self.queue(ops);
                Some(Mut { source: self })
            },
            _ => None,
        }
    }

    /// Replaces the stored value and resets the native lock, leaving the
    /// container unlocked; this also clears poisoning.
    pub fn swap(&mut self, new_value: T)
        requires
            old(self)@.can_replace(),
        ensures
            final(self)@ == old(self)@.replaced(new_value),
    {
        self.data = new_value;
        self.state.set(State::Unlocked);
        let ops = self.lock.reset();
        self.queue(ops);
    }

    pub fn get_state(&self) -> (r: State)
        ensures
            r == self@.state,
    {
        self.state.get()
    }

    /// The first half of a blocking wait: queues taking the native lock,
    /// building it first on first use. The waiter sleeps on those calls until
    /// the guard that is out is released.
    pub fn begin_wait(&mut self)
        requires
            old(self)@.waiters < usize::MAX,
        ensures
            final(self)@ == old(self)@.wait_begun(),
    {
        let ops = self.lock.lock();
        self.queue(ops);
        self.waiters = self.waiters + 1;
    }

    /// The second half of a blocking wait, once the waiter holds the native
    /// lock: lends the value out under a new guard. A waiter that wakes to a
    /// poisoned container must not get here.
    pub fn finish_wait(&mut self) -> (r: Mut<'_, T>)
        requires
            old(self)@.waiters > 0,
            old(self)@.state == State::Unlocked,
        ensures
            r.current() == (ExclusiveView {
                state: State::Locked,
                waiters: (old(self)@.waiters - 1) as nat,
                ..old(self)@
            }),
            r@ == old(self)@.data,
            final(r.source_ref())@ == final(self)@,
    {
        self.waiters = self.waiters - 1;
        self.state.set(State::Locked);
        Mut { source: self }
    }

    /// A blocking acquisition in the uncontended case, where it need not
    /// sleep: takes the native lock, then lends the value out under a new
    /// guard. A waiter that must sleep goes through `begin_wait`, makes the
    /// queued native calls, then `finish_wait`.
    pub fn wait(&mut self) -> (r: Mut<'_, T>)
        requires
            old(self)@.can_wait(),
        ensures
            r.current() == old(self)@.acquired(),
            r@ == old(self)@.data,
            final(r.source_ref())@ == final(self)@,
    {
        self.begin_wait();
        self.finish_wait()
    }

    /// Consumes the container and returns its value.
    pub fn into_inner(self) -> (r: T)
        requires
            self@.state == State::Unlocked,
        ensures
            r == self@.data,
    {
        self.data
    }

    pub fn is_unlocked(&self) -> (r: bool)
        ensures
            r == (self@.state == State::Unlocked),
    {
        self.state.get() == State::Unlocked
    }

    pub fn is_locked(&self) -> (r: bool)
        ensures
            r == (self@.state == State::Locked),
    {
        self.state.get() == State::Locked
    }

    pub fn is_poisoned(&self) -> (r: bool)
        ensures
            r == (self@.state == State::Poisoned),
    {
        self.state.get() == State::Poisoned
    }

    /// How many blocking waits have begun and not yet claimed the value.
    pub fn waiters(&self) -> (r: usize)
        ensures
            r == self@.waiters,
    {
        self.waiters
    }

    /// Reads the stored value when no guard is out and the container is not
    /// poisoned; otherwise there is nothing safe to show.
    pub fn peek(&self) -> (r: Option<&T>)
        ensures
            r is Some <==> self@.state == State::Unlocked,
            r is Some ==> *r->0 == self@.data,
    {
        match self.state.get() {
            State::Unlocked => Some(&self.data),
            _ => None,
        }
    }

    /// Hands out the native lock calls queued so far, oldest first, and
    /// empties the queue.
    pub fn take_native_ops(&mut self) -> (r: Vec<NativeOp>)
        ensures
            r@ == old(self)@.pending,
            final(self)@ == (ExclusiveView { pending: Seq::empty(), ..old(self)@ }),
    {
        let mut r: Vec<NativeOp> = Vec::new();
        std::mem::swap(&mut r, &mut self.pending);
        r
    }

    /// Consumes the container, returning its value and the native lock calls
    /// still owed: those queued, then the teardown of the native lock.
    pub fn dismantle(self) -> (r: (T, Vec<NativeOp>))
        ensures
            r.0 == self@.data,
            r.1@ == self@.pending + teardown_ops(self@.phase),
    {
        let mut ops = self.pending;
        let mut last = self.lock.teardown();
        ops.append(&mut last);
        (self.data, ops)
    }

    fn put_back(&mut self, faulted: bool)
        ensures
            final(self)@ == old(self)@.released(faulted),
    {
        self.state.set(State::Unlocked);
        let ops = self.lock.unlock();
        self.queue(ops);
        if faulted {
            self.state.set(State::Poisoned);
        }
    }
}

impl<T: Clone> LazyExclusive<T> {
    /// A new, independent container holding a clone of the value, with its
    /// own state and its own native lock.
    pub fn clone(&self) -> (r: LazyExclusive<T>)
        requires
            self@.state == State::Unlocked,
        ensures
            r@ == ExclusiveView::fresh(r@.data),
            strictly_cloned(self@.data, r@.data),
    {
        LazyExclusive::new(self.data.clone())
    }
}

impl<T: Default> Default for LazyExclusive<T> {
    fn default() -> (r: LazyExclusive<T>)
        ensures
            r@ == ExclusiveView::fresh(r@.data),
            call_ensures(T::default, (), r@.data),
    {
        LazyExclusive::new(T::default())
    }
}

impl<T> From<T> for LazyExclusive<T> {
    fn from(value: T) -> (r: LazyExclusive<T>)
        ensures
            r@ == ExclusiveView::fresh(value),
    {
        LazyExclusive::new(value)
    }
}

impl<T> vstd::std_specs::convert::FromSpecImpl<T> for LazyExclusive<T> {
    open spec fn obeys_from_spec() -> bool {
        false
    }

    open spec fn from_spec(v: T) -> LazyExclusive<T> {
        arbitrary()
    }
}

impl<'a, T> Mut<'a, T> {
    /// Gives the container back after a normal end of use: it is unlocked and
    /// the native lock is released.
    pub fn release(self)
        requires
            self.current().state == State::Locked,
        ensures
            final(self.source_ref())@ == self.current().released(false),
    {
        self.source.put_back(false);
    }

    /// Gives the container back when the guard's holder ended while a fault
    /// was propagating: the native lock is released, and the container is left
    /// poisoned.
    pub fn release_after_fault(self)
        requires
            self.current().state == State::Locked,
        ensures
            final(self.source_ref())@ == self.current().released(true),
    {
        self.source.put_back(true);
    }

    /// The guarded container, borrowed through the guard. Nothing that can be
    /// done through it lends the value out a second time: the container stays
    /// locked to every `get` and wait.
    pub fn source_mut(&mut self) -> (r: &mut LazyExclusive<T>)
        ensures
            r@ == old(self).current(),
            final(self).current() == final(r)@,
            final(final(self).source_ref())@ == final(old(self).source_ref())@,
    {
        &mut *self.source
    }
}

impl<'a, T> AsRef<T> for Mut<'a, T> {
    /// Reads the guarded value.
    fn as_ref(&self) -> (r: &T)
        ensures
            *r == self@,
    {
        &self.source.data
    }
}

impl<'a, T> AsMut<T> for Mut<'a, T> {
    /// Borrows the guarded value mutably; writes through it land in the
    /// container.
    fn as_mut(&mut self) -> (r: &mut T)
        ensures
            *r == old(self)@,
            final(self).current() == (ExclusiveView { data: *final(r), ..old(self).current() }),
            final(final(self).source_ref())@ == final(old(self).source_ref())@,
    {
        &mut self.source.data
    }
}

impl<'a, T> std::ops::Deref for Mut<'a, T> {
    type Target = T;

    fn deref(&self) -> (r: &T)
        ensures
            *r == self@,
    {
        &self.source.data
    }
}

impl<'a, T> std::ops::DerefMut for Mut<'a, T> {
    fn deref_mut(&mut self) -> (r: &mut T)
        ensures
            *r == old(self)@,
            final(self).current() == (ExclusiveView { data: *final(r), ..old(self).current() }),
            final(final(self).source_ref())@ == final(old(self).source_ref())@,
    {
        &mut self.source.data
    }
}

} // verus!
