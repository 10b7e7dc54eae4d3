use vstd::prelude::*;

verus! {

/// Contract form of a one-argument callback.
/// A plain `Fn` closure implements it through the blanket impl below, so
/// grammar code passes ordinary closures; combinator contracts speak of
/// `pre` and `post` without caring what the callback is made of.
pub trait Apply<T> where Self: Sized {
    type Out;

    /// The callback may be called on this argument
    spec fn pre(&self, x: T) -> bool;

    /// The callback may return `y` for `x`
    spec fn post(&self, x: T, y: Self::Out) -> bool;

    fn apply(&self, x: T) -> (r: Self::Out)
        requires
            self.pre(x),
        ensures
            self.post(x, r),
    ;
}

impl<T, U, F: Fn(T) -> U> Apply<T> for F {
    type Out = U;

    open spec fn pre(&self, x: T) -> bool {
        self.requires((x,))
    }

    open spec fn post(&self, x: T, y: U) -> bool {
        self.ensures((x,), y)
    }

    fn apply(&self, x: T) -> (r: U) {
        self(x)
    }
}

/// Contract form of a two-argument callback
pub trait Apply2<A, B> where Self: Sized {
    type Out;

    /// The callback may be called on these arguments
    spec fn pre2(&self, x: A, y: B) -> bool;

    /// The callback may return `r` for `x` and `y`
    spec fn post2(&self, x: A, y: B, r: Self::Out) -> bool;

    fn apply2(&self, x: A, y: B) -> (r: Self::Out)
        requires
            self.pre2(x, y),
        ensures
            self.post2(x, y, r),
    ;
}

impl<A, B, U, F: Fn(A, B) -> U> Apply2<A, B> for F {
    type Out = U;

    open spec fn pre2(&self, x: A, y: B) -> bool {
        self.requires((x, y))
    }

    open spec fn post2(&self, x: A, y: B, r: U) -> bool {
        self.ensures((x, y), r)
    }

    fn apply2(&self, x: A, y: B) -> (r: U) {
        self(x, y)
    }
}

/// Contract form of a callback that takes nothing
pub trait Supply where Self: Sized {
    type Out;

    /// The callback may be called
    spec fn pre0(&self) -> bool;

    /// The callback may return `r`
    spec fn post0(&self, r: Self::Out) -> bool;

    fn supply(&self) -> (r: Self::Out)
        requires
            self.pre0(),
        ensures
            self.post0(r),
    ;
}

impl<U, F: Fn() -> U> Supply for F {
    type Out = U;

    open spec fn pre0(&self) -> bool {
        self.requires(())
    }

    open spec fn post0(&self, r: U) -> bool {
        self.ensures((), r)
    }

    fn supply(&self) -> (r: U) {
        self()
    }
}

/// The callback answers every argument
pub open spec fn apply_total<T, M: Apply<T>>(m: M) -> bool {
    forall|x: T| #[trigger] m.pre(x)
}

/// The callback behaves as a function: equal arguments get equal answers
pub open spec fn apply_det<T, M: Apply<T>>(m: M) -> bool {
    forall|x: T, y1: M::Out, y2: M::Out| m.post(x, y1) && m.post(x, y2) ==> y1 == y2
}

/// The one answer a deterministic callback gives
pub open spec fn apply_value<T, M: Apply<T>>(m: M, x: T) -> M::Out {
    choose|y: M::Out| m.post(x, y)
}

/// The callback has an answer for this argument
pub open spec fn apply_some<T, M: Apply<T>>(m: M, x: T) -> bool {
    exists|y: M::Out| #[trigger] m.post(x, y)
}

/// The callback has an answer for every argument
pub open spec fn apply_full<T, M: Apply<T>>(m: M) -> bool {
    forall|x: T| #[trigger] apply_some(m, x)
}

/// The zero-argument callback behaves as a constant: any two answers agree
pub open spec fn supply_det<M: Supply>(m: M) -> bool {
    forall|y1: M::Out, y2: M::Out| m.post0(y1) && m.post0(y2) ==> y1 == y2
}

/// The zero-argument callback has an answer
pub open spec fn supply_some<M: Supply>(m: M) -> bool {
    exists|y: M::Out| #[trigger] m.post0(y)
}

/// The one answer a constant callback gives
pub open spec fn supply_value<M: Supply>(m: M) -> M::Out {
    choose|y: M::Out| m.post0(y)
}

} // verus!
