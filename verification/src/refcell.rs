use vstd::prelude::*;
use crate::cell::MyCell;

verus! {

/// The borrow-state tracker of a `RefCell`: at any instant the cell is
/// unborrowed, borrowed by `n >= 1` readers, or borrowed by exactly one
/// writer.
#[derive(Clone, Copy)]
pub enum RefState {
    /// No outstanding borrows.
    Unshared,
    /// Exactly one outstanding exclusive (read-write) borrow.
    Exclusive,
    /// `n` outstanding shared (read) borrows, with `n >= 1`.
    Shared(usize),
}

/// Whether a shared borrow can be granted in tracker state `s`.
pub open spec fn can_borrow(s: RefState) -> bool {
    !(s is Exclusive)
}

/// Whether an exclusive borrow can be granted in tracker state `s`.
pub open spec fn can_borrow_mut(s: RefState) -> bool {
    s is Unshared
}

/// The tracker state after a shared borrow is attempted in state `s`:
/// one more reader where the borrow is granted, unchanged where it is not.
pub open spec fn after_borrow(s: RefState) -> RefState {
    match s {
        RefState::Unshared => RefState::Shared(1),
        RefState::Shared(n) => RefState::Shared((n + 1) as usize),
        RefState::Exclusive => RefState::Exclusive,
    }
}

/// The tracker state after an exclusive borrow is attempted in state `s`:
/// the one writer where the borrow is granted, unchanged where it is not.
pub open spec fn after_borrow_mut(s: RefState) -> RefState {
    match s {
        RefState::Unshared => RefState::Exclusive,
        _ => s,
    }
}

/// The tracker state after one shared borrow is released in state `s`:
/// one reader fewer, and unborrowed when the last reader leaves. Releasing
/// in a state with no readers is a caller logic error, ruled out by the
/// contract of `RefCell::release`.
pub open spec fn after_release(s: RefState) -> RefState {
    match s {
        RefState::Shared(n) => if n == 1 {
            RefState::Unshared
        } else {
            RefState::Shared((n - 1) as usize)
        },
        _ => s,
    }
}

/// The tracker state after the exclusive borrow is released: unborrowed.
pub open spec fn after_release_mut(s: RefState) -> RefState {
    RefState::Unshared
}

/// One live shared (read) borrow of a `RefCell`. It is produced only by a
/// granted `borrow`, read through `RefCell::read`, and consumed by exactly
/// one `RefCell::release`.
pub struct Ref {
    _own: (),
}

/// The one live exclusive (read-write) borrow of a `RefCell`. It is
/// produced only by a granted `borrow_mut`, used through `RefCell::read_mut`
/// and `RefCell::write`, and consumed by exactly one `RefCell::release_mut`.
pub struct RefMut {
    _own: (),
}

/// A runtime-checked dynamic-borrow container: one interior value plus a
/// borrow-state tracker, stored in a raw `MyCell`. Every access runs
/// through a guard, and the tracker enforces that outstanding guards are
/// either many readers or exactly one writer, never both. An access that
/// cannot be granted fails by returning no guard; it never blocks and
/// never changes the tracker.
pub struct RefCell<T> {
    value: T,
    state: MyCell<RefState>,
}

impl<T> RefCell<T> {
    /// The interior value.
    pub closed spec fn value(&self) -> T {
        self.value
    }

    /// The current borrow-state tracker.
    pub closed spec fn state(&self) -> RefState {
        self.state.value()
    }

    /// Well-formedness: a shared tracker state always records at least one
    /// reader, so a stray `Shared(0)` can never arise.
    pub open spec fn wf(&self) -> bool {
        self.state() matches RefState::Shared(n) ==> n >= 1
    }

    /// Constructs an unborrowed cell owning `value`.
    pub fn new(value: T) -> (cell: Self)
        ensures
            cell.wf(),
            cell.value() == value,
            cell.state() is Unshared,
    {
        RefCell { value, state: MyCell::new(RefState::Unshared) }
    }

    /// Attempts to acquire a shared borrow. The borrow is granted, and one
    /// reader added to the tracker, exactly when no exclusive borrow is
    /// live; otherwise no guard is returned and the tracker is untouched.
    /// The interior value is never changed.
    pub fn borrow(&mut self) -> (guard: Option<Ref>)
        requires
            old(self).wf(),
            old(self).state() matches RefState::Shared(n) ==> n < usize::MAX,
        ensures
            final(self).wf(),
            final(self).value() == old(self).value(),
            final(self).state() == after_borrow(old(self).state()),
            guard is Some <==> can_borrow(old(self).state()),
    {
        match self.state.get() {
            RefState::Unshared => {
                self.state.set(RefState::Shared(1));
                Some(Ref { _own: () })
            },
            RefState::Shared(n) => {
                self.state.set(RefState::Shared(n + 1));
                Some(Ref { _own: () })
            },
            RefState::Exclusive => None,
        }
    }

    /// Attempts to acquire the exclusive borrow. The borrow is granted
    /// exactly when the cell is unborrowed; otherwise no guard is returned
    /// and the tracker is untouched. The interior value is never changed.
    pub fn borrow_mut(&mut self) -> (guard: Option<RefMut>)
        requires
            old(self).wf(),
        ensures
            final(self).wf(),
            final(self).value() == old(self).value(),
            final(self).state() == after_borrow_mut(old(self).state()),
            guard is Some <==> can_borrow_mut(old(self).state()),
    {
        match self.state.get() {
            RefState::Unshared => {
                self.state.set(RefState::Exclusive);
                Some(RefMut { _own: () })
            },
            _ => None,
        }
    }

    /// Ends one shared borrow, consuming its guard: the counterpart of the
    /// guard going out of scope. Removes exactly one reader from the
    /// tracker; releasing the last reader lands on `Unshared`, never on a
    /// stray `Shared(0)`. Releasing while no shared borrow is live is a
    /// caller logic error and is ruled out by the precondition.
    pub fn release(&mut self, _guard: Ref)
        requires
            old(self).wf(),
            old(self).state() is Shared,
        ensures
            final(self).wf(),
            final(self).value() == old(self).value(),
            final(self).state() == after_release(old(self).state()),
    {
        match self.state.get() {
            RefState::Shared(n) => {
                if n == 1 {
                    self.state.set(RefState::Unshared);
                } else {
                    self.state.set(RefState::Shared(n - 1));
                }
            },
            _ => unreached(),
        }
    }

    /// Ends the exclusive borrow, consuming its guard: the counterpart of
    /// the guard going out of scope. The tracker returns to `Unshared`.
    /// Releasing while no exclusive borrow is live is a caller logic error
    /// and is ruled out by the precondition.
    pub fn release_mut(&mut self, _guard: RefMut)
        requires
            old(self).wf(),
            old(self).state() is Exclusive,
        ensures
            final(self).wf(),
            final(self).value() == old(self).value(),
            final(self).state() == after_release_mut(old(self).state()),
    {
        self.state.set(RefState::Unshared);
    }

    /// Read-only access to the interior value through a live shared guard.
    pub fn read(&self, _guard: &Ref) -> (v: &T)
        requires
            self.state() is Shared,
        ensures
            *v == self.value(),
    {
        &self.value
    }

    /// Read-only access to the interior value through the live exclusive
    /// guard.
    pub fn read_mut(&self, _guard: &RefMut) -> (v: &T)
        requires
            self.state() is Exclusive,
        ensures
            *v == self.value(),
    {
        &self.value
    }

    /// Overwrites the interior value through the live exclusive guard. The
    /// tracker is untouched: the guard stays live.
    pub fn write(&mut self, _guard: &RefMut, value: T)
        requires
            old(self).state() is Exclusive,
        ensures
            final(self).wf(),
            final(self).value() == value,
            final(self).state() == old(self).state(),
    {
        self.value = value;
    }
}

/// The tracker state after `n` granted shared borrows, starting from `s`,
/// with none released in between.
pub open spec fn after_borrows(s: RefState, n: nat) -> RefState
    decreases n,
{
    if n == 0 {
        s
    } else {
        after_borrow(after_borrows(s, (n - 1) as nat))
    }
}

/// The tracker state after `k` shared releases, starting from `s`.
pub open spec fn after_releases(s: RefState, k: nat) -> RefState
    decreases k,
{
    if k == 0 {
        s
    } else {
        after_release(after_releases(s, (k - 1) as nat))
    }
}

/// An unborrowed cell permits both a shared and an exclusive borrow.
pub proof fn lemma_unshared_permits_both(s: RefState)
    requires
        s is Unshared,
    ensures
        can_borrow(s),
        can_borrow_mut(s),
{
}

/// Shared borrows are reentrant: after any number `n >= 1` of granted
/// shared borrows on an unborrowed cell, with none released, the tracker
/// records exactly `n` readers, one more shared borrow is still granted
/// (raising the count to `n + 1`), and an exclusive borrow is refused.
pub proof fn lemma_shared_reentrancy(n: nat)
    requires
        1 <= n <= usize::MAX,
    ensures
        after_borrows(RefState::Unshared, n) == RefState::Shared(n as usize),
        can_borrow(after_borrows(RefState::Unshared, n)),
        !can_borrow_mut(after_borrows(RefState::Unshared, n)),
        n < usize::MAX ==> after_borrow(after_borrows(RefState::Unshared, n))
            == RefState::Shared((n + 1) as usize),
    decreases n,
{
    if n == 1 {
        reveal_with_fuel(after_borrows, 2);
    } else {
        lemma_shared_reentrancy((n - 1) as nat);
    }
}

/// Exclusivity: while any shared borrow is live an exclusive borrow is
/// refused, and while the exclusive borrow is live every further borrow of
/// either kind is refused.
pub proof fn lemma_exclusivity(s: RefState)
    ensures
        s is Shared ==> !can_borrow_mut(s),
        s is Exclusive ==> !can_borrow(s) && !can_borrow_mut(s),
{
}

/// Release restores capacity: releasing the only live shared borrow lands
/// on a tracker that grants an exclusive borrow, and releasing the
/// exclusive borrow lands on one that grants both kinds again.
pub proof fn lemma_release_restores_capacity()
    ensures
        after_release(RefState::Shared(1)) is Unshared,
        can_borrow_mut(after_release(RefState::Shared(1))),
        after_release_mut(RefState::Exclusive) is Unshared,
        can_borrow(after_release_mut(RefState::Exclusive)),
        can_borrow_mut(after_release_mut(RefState::Exclusive)),
{
}

/// Decrement correctness: starting from `n >= 1` live shared borrows, each
/// release removes exactly one reader; while any reader remains an
/// exclusive borrow is still refused and a further shared borrow is still
/// granted, and only after all `n` releases is the cell unborrowed.
pub proof fn lemma_decrement_correctness(n: usize, k: usize)
    requires
        1 <= n,
        k <= n,
    ensures
        k < n ==> after_releases(RefState::Shared(n), k as nat)
            == RefState::Shared((n - k) as usize),
        k < n ==> !can_borrow_mut(after_releases(RefState::Shared(n), k as nat)),
        k < n ==> can_borrow(after_releases(RefState::Shared(n), k as nat)),
        k == n ==> after_releases(RefState::Shared(n), k as nat) is Unshared,
    decreases k,
{
    if k > 0 {
        lemma_decrement_correctness(n, (k - 1) as usize);
    }
}

} // verus!
