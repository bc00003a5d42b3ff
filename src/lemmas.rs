use vstd::prelude::*;

use crate::exclusive::ExclusiveView;
use crate::state::State;

verus! {

/// What `n` successive non-blocking `get`s on a container hand out, when no
/// guard is released in between.
pub open spec fn get_outcomes<T>(m: ExclusiveView<T>, n: nat) -> Seq<Option<T>>
    decreases n,
{
    if n == 0 {
        Seq::empty()
    } else {
        seq![m.got()] + get_outcomes(m.after_get(), (n - 1) as nat)
    }
}

proof fn lemma_get_outcomes_len<T>(m: ExclusiveView<T>, n: nat)
    ensures
        get_outcomes(m, n).len() == n,
    decreases n,
{
    if n > 0 {
        lemma_get_outcomes_len(m.after_get(), (n - 1) as nat);
    }
}

proof fn lemma_unavailable_gets_nothing<T>(m: ExclusiveView<T>, n: nat)
    requires
        !m.available(),
    ensures
        forall|i: int| 0 <= i < n ==> (#[trigger] get_outcomes(m, n)[i]) is None,
    decreases n,
{
    lemma_get_outcomes_len(m, n);
    if n > 0 {
        lemma_unavailable_gets_nothing(m.after_get(), (n - 1) as nat);
        assert forall|i: int| 0 <= i < n implies (#[trigger] get_outcomes(m, n)[i]) is None by {
            if i > 0 {
                assert(get_outcomes(m, n)[i] == get_outcomes(m.after_get(), (n - 1) as nat)[i - 1]);
            }
        }
    }
}

/// Single ownership: among any run of non-blocking `get`s on one container,
/// with no guard released in between, at most one hands out a guard; and on
/// a container whose guard is out, none does.
pub proof fn lemma_single_ownership<T>(m: ExclusiveView<T>, n: nat)
    ensures
        get_outcomes(m, n).len() == n,
        forall|i: int, j: int|
            0 <= i < j < n ==> !((#[trigger] get_outcomes(m, n)[i]) is Some
                && (#[trigger] get_outcomes(m, n)[j]) is Some),
        m.state == State::Locked ==> forall|i: int|
            0 <= i < n ==> (#[trigger] get_outcomes(m, n)[i]) is None,
    decreases n,
{
    lemma_get_outcomes_len(m, n);
    if !m.available() {
        lemma_unavailable_gets_nothing(m, n);
    } else if n > 0 {
        let rest = get_outcomes(m.after_get(), (n - 1) as nat);
        lemma_unavailable_gets_nothing(m.after_get(), (n - 1) as nat);
        assert forall|i: int, j: int|
            0 <= i < j < n implies !((#[trigger] get_outcomes(m, n)[i]) is Some
                && (#[trigger] get_outcomes(m, n)[j]) is Some) by {
            assert(get_outcomes(m, n)[j] == rest[j - 1]);
        }
    }
}

/// Release, then reacquire: once a guard has been released normally, and no
/// blocking waiter has the first claim on the value, the next non-blocking
/// `get` succeeds and lends out the value as the guard left it, and the
/// container is then locked again.
pub proof fn lemma_release_then_reacquire<T>(m: ExclusiveView<T>)
    requires
        m.state == State::Locked,
        m.waiters == 0,
    ensures
        m.released(false).got() == Some(m.data),
        m.released(false).after_get().state == State::Locked,
        m.released(false).after_get().data == m.data,
{
}

/// A guard taken and released without writing leaves the same value to be
/// got again.
pub proof fn lemma_round_trip_through_guard<T>(m: ExclusiveView<T>)
    requires
        m.available(),
    ensures
        m.after_get().released(false).got() == m.got(),
{
}

/// Poisoning: a guard released after a fault leaves the container poisoned,
/// so that neither a non-blocking `get` nor a blocking wait may lend the
/// value out, and the value is kept as the guard left it; replacing the
/// value, once no blocking waiter is left, unlocks it again, after which both
/// may.
pub proof fn lemma_poisoning<T>(m: ExclusiveView<T>, replacement: T)
    requires
        m.state == State::Locked,
    ensures
        m.released(true).state == State::Poisoned,
        m.released(true).data == m.data,
        m.released(true).got() is None,
        m.released(true).after_get() == m.released(true),
        !m.released(true).can_wait(),
        m.waiters == 0 ==> m.released(true).can_replace(),
        m.released(true).replaced(replacement).state == State::Unlocked,
        m.waiters == 0 ==> m.released(true).replaced(replacement).got() == Some(replacement),
        m.waiters == 0 ==> m.released(true).replaced(replacement).can_wait(),
{
}

/// Replacing requires an unlocked container: once a guard has been lent out,
/// the value cannot be replaced until the guard is released, and lending
/// it out left the value as it was.
pub proof fn lemma_replace_requires_unlocked<T>(m: ExclusiveView<T>)
    requires
        m.state == State::Unlocked,
    ensures
        !m.acquired().can_replace(),
        m.acquired().data == m.data,
        !m.wait_begun().can_replace(),
{
}

/// Round trip: a freshly built container is unlocked and holds exactly the
/// value it was built with, so taking it back out returns that value.
pub proof fn lemma_new_then_into_inner<T>(value: T)
    ensures
        ExclusiveView::fresh(value).state == State::Unlocked,
        ExclusiveView::fresh(value).data == value,
        ExclusiveView::fresh(value).can_wait(),
{
}

} // verus!
