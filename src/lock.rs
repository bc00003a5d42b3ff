use vstd::prelude::*;

verus! {

/// Whether the native lock has been built yet.
#[derive(Clone, Copy, PartialEq, Eq, Debug, Structural)]
pub enum LockPhase {
    Uninitialized,
    Initialized,
}

/// One call into the platform's native lock, in the order it must be made.
#[derive(Clone, Copy, PartialEq, Eq, Debug, Structural)]
pub enum NativeOp {
    /// Build the native lock in place.
    Init,
    /// Take the native lock, sleeping until it is free.
    Acquire,
    /// Give the native lock back, waking one sleeper.
    Release,
    /// Tear the native lock down.
    Destroy,
}

/// The calls that taking the lock makes from `phase`: it is built first when
/// it does not exist yet.
pub open spec fn lock_ops(phase: LockPhase) -> Seq<NativeOp> {
    match phase {
        LockPhase::Uninitialized => seq![NativeOp::Init, NativeOp::Acquire],
        LockPhase::Initialized => seq![NativeOp::Acquire],
    }
}

/// The calls that giving the lock back makes from `phase`.
pub open spec fn unlock_ops(phase: LockPhase) -> Seq<NativeOp> {
    match phase {
        LockPhase::Uninitialized => seq![NativeOp::Init, NativeOp::Release],
        LockPhase::Initialized => seq![NativeOp::Release],
    }
}

/// The calls that tearing the lock down makes from `phase`: only a lock that
/// was built is destroyed.
pub open spec fn teardown_ops(phase: LockPhase) -> Seq<NativeOp> {
    match phase {
        LockPhase::Uninitialized => Seq::empty(),
        LockPhase::Initialized => seq![NativeOp::Destroy],
    }
}

/// The lifecycle of a lazily built native lock.
///
/// Building a `Lock` makes no native call, so it can be made before any
/// operating-system facility is available. Each operation returns the native
/// calls to perform, in order; the caller that owns the native storage makes them.
pub struct Lock {
    phase: LockPhase,
}

impl View for Lock {
    type V = LockPhase;

    closed spec fn view(&self) -> LockPhase {
        self.phase
    }
}

impl Lock {
    pub fn new() -> (r: Lock)
        ensures
            r@ == LockPhase::Uninitialized,
    {
        Lock { phase: LockPhase::Uninitialized }
    }

    pub fn is_initialized(&self) -> (r: bool)
        ensures
            r == (self@ == LockPhase::Initialized),
    {
        self.phase == LockPhase::Initialized
    }

    /// Builds the native lock.
    fn init(&mut self) -> (ops: Vec<NativeOp>)
        ensures
            final(self)@ == LockPhase::Initialized,
            ops@ == seq![NativeOp::Init],
    {
        self.phase = LockPhase::Initialized;
        vec![NativeOp::Init]
    }

    /// Takes the native lock, building it first on first use.
    pub fn lock(&mut self) -> (ops: Vec<NativeOp>)
        ensures
            final(self)@ == LockPhase::Initialized,
            ops@ == lock_ops(old(self)@),
    {
        let mut ops: Vec<NativeOp> = if self.is_initialized() {
            Vec::new()
        } else {
            self.init()
        };
        ops.push(NativeOp::Acquire);
        proof {
            assert(ops@ =~= lock_ops(old(self)@));
        }
        ops
    }

    /// Gives the native lock back. A lock that was never built is built first.
    pub fn unlock(&mut self) -> (ops: Vec<NativeOp>)
        ensures
            final(self)@ == LockPhase::Initialized,
            ops@ == unlock_ops(old(self)@),
    {
        let mut ops: Vec<NativeOp> = if self.is_initialized() {
            Vec::new()
        } else {
            self.init()
        };
        ops.push(NativeOp::Release);
        proof {
            assert(ops@ =~= unlock_ops(old(self)@));
        }
        ops
    }

    /// Tears the native lock down, so that the next use builds a fresh one.
    pub fn reset(&mut self) -> (ops: Vec<NativeOp>)
        ensures
            final(self)@ == LockPhase::Uninitialized,
            ops@ == teardown_ops(old(self)@),
    {
        let ops: Vec<NativeOp> = if self.is_initialized() {
            vec![NativeOp::Destroy]
        } else {
            Vec::new()
        };
        self.phase = LockPhase::Uninitialized;
        proof {
            assert(ops@ =~= teardown_ops(old(self)@));
        }
        ops
    }

    /// Consumes the lock, returning the calls that release its native storage:
    /// a built lock is destroyed exactly once.
    pub fn teardown(self) -> (ops: Vec<NativeOp>)
        ensures
            ops@ == teardown_ops(self@),
    {
        let mut this = self;
        this.reset()
    }
}

impl Default for Lock {
    fn default() -> (r: Lock)
        ensures
            r@ == LockPhase::Uninitialized,
    {
        Lock::new()
    }
}

} // verus!
