//! Fluent, chainable wrapping combinators, available on every value type.
//!
//! Each trait here carries a single method and is implemented once, for a
//! universal type parameter, so that any owned value can be transformed,
//! wrapped in an `Option` or a `Result`, or mutated in place, in the middle
//! of a call chain.

use vstd::prelude::*;

verus! {

/// Analogous to a regular `map` but works on any type.
/// Transforms one type into another by applying a caller-supplied function.
pub trait MapType<M>: Sized {
    /// Converts one type into another: returns exactly what `f` returns.
    fn map_type<N, F: FnOnce(Self) -> N>(self, f: F) -> (r: N)
        requires
            call_requires(f, (self,)),
        ensures
            call_ensures(f, (self,), r),
    ;
}

impl<M> MapType<M> for M {
    fn map_type<N, F: FnOnce(M) -> N>(self, f: F) -> (r: N)
        ensures
            call_ensures(f, (self,), r),
    {
        f(self)
    }
}

/// Wraps a value in `Option`, returning `None` when a condition holds.
pub trait NoneIf<T>: Sized {
    /// Returns `None` on `cond == true`, else `Some` of the value unchanged.
    fn none_if<F: Fn(&Self) -> bool>(self, cond: F) -> (r: Option<Self>)
        requires
            call_requires(cond, (&self,)),
        ensures
            match r {
                None => call_ensures(cond, (&self,), true),
                Some(v) => v == self && call_ensures(cond, (&self,), false),
            },
    ;
}

impl<T> NoneIf<T> for T {
    fn none_if<F: Fn(&T) -> bool>(self, cond: F) -> (r: Option<T>)
        ensures
            match r {
                None => call_ensures(cond, (&self,), true),
                Some(v) => v == self && call_ensures(cond, (&self,), false),
            },
    {
        match cond(&self) {
            true => None,
            _ => Some(self),
        }
    }
}

/// Wraps a value in `Result`, returning a supplied error when a condition
/// holds.
pub trait ErrIf<T>: Sized {
    /// Returns the given error on `cond == true`, else `Ok` of the value
    /// unchanged.
    fn err_if<E, F: Fn(&Self) -> bool>(self, cond: F, err: E) -> (r: Result<Self, E>)
        requires
            call_requires(cond, (&self,)),
        ensures
            match r {
                Ok(v) => v == self && call_ensures(cond, (&self,), false),
                Err(e) => e == err && call_ensures(cond, (&self,), true),
            },
    ;
}

impl<T> ErrIf<T> for T {
    fn err_if<E, F: Fn(&T) -> bool>(self, cond: F, err: E) -> (r: Result<T, E>)
        ensures
            match r {
                Ok(v) => v == self && call_ensures(cond, (&self,), false),
                Err(e) => e == err && call_ensures(cond, (&self,), true),
            },
    {
        match cond(&self) {
            true => Err(err),
            _ => Ok(self),
        }
    }
}

/// Maps any value to `()`.
pub trait ForgetValue {
    /// Consumes and forgets any owned value; always returns the unit value.
    fn forget_val(self);
}

impl<T> ForgetValue for T {
    fn forget_val(self) {
    }
}

/// Wraps a value in `Result`.
/// Complements the convenience of mapping any type into `Option`.
pub trait WrapInRes<T> {
    /// Wraps the value in `Result::Ok`.
    fn in_ok<E>(self) -> Result<T, E>;
    /// Wraps the value in `Result::Err`.
    fn in_err<O>(self) -> Result<O, T>;
}

impl<T> WrapInRes<T> for T {
    fn in_ok<E>(self) -> (r: Result<T, E>)
        ensures
            r == Ok::<T, E>(self),
    {
        Ok(self)
    }

    fn in_err<O>(self) -> (r: Result<O, T>)
        ensures
            r == Err::<O, T>(self),
    {
        Err(self)
    }
}

/// What swapping the two branches of a result yields: the `Ok` payload moves
/// to `Err` and the `Err` payload moves to `Ok`, unchanged.
pub open spec fn swapped<T, E>(r: Result<T, E>) -> Result<E, T> {
    match r {
        Ok(t) => Err(t),
        Err(e) => Ok(e),
    }
}

/// Law: swapping the two branches of a result is involutive. Swapping twice
/// reconstructs an equivalent result: the same branch with the same payload.
pub proof fn lemma_swap_res_involutive<T, E>(r: Result<T, E>)
    ensures
        swapped(swapped(r)) == r,
{
}

/// Swaps `Ok` and `Err`.
/// Useful where the difference between the two branches of a `Result` is
/// shallow, or when a value such as `Option::Some(error)` is at hand.
pub trait SwapRes<T, E> {
    /// Swaps the `Ok` and `Err` variants.
    fn swap_res(self) -> Result<T, E>;
}

impl<T, E> SwapRes<E, T> for Result<T, E> {
    fn swap_res(self) -> (r: Result<E, T>)
        ensures
            r == swapped(self),
    {
        match self {
            Ok(t) => Err(t),
            Err(e) => Ok(e),
        }
    }
}

/// Turns an `Option<T>` into a `Result`, with respect to whether the payload
/// of the option should become an `Ok` or an `Err`.
pub trait AddToRes<T> {
    /// Turns `Option<T>` into `Result<O, T>`: a present payload is the error.
    fn add_ok<O>(self, ok: O) -> Result<O, T>;
    /// Turns `Option<T>` into `Result<T, E>`: an absent payload is the error.
    fn add_err<E>(self, err: E) -> Result<T, E>;
}

impl<T> AddToRes<T> for Option<T> {
    fn add_ok<O>(self, ok: O) -> (r: Result<O, T>)
        ensures
            match self {
                None => r == Ok::<O, T>(ok),
                Some(e) => r == Err::<O, T>(e),
            },
    {
        match self {
            None => Ok(ok),
            Some(e) => Err(e),
        }
    }

    fn add_err<E>(self, err: E) -> (r: Result<T, E>)
        ensures
            match self {
                Some(t) => r == Ok::<T, E>(t),
                None => r == Err::<T, E>(err),
            },
    {
        self.ok_or(err)
    }
}

/// Mutates a value in place and returns it back, enabling fluent chains.
pub trait Mutate<T>: Sized {
    /// Applies the mutating operation to the value, discards the operation's
    /// own result, and returns the (possibly) mutated value.
    fn mutate<R, F: FnOnce(&mut Self) -> R>(self, f: F) -> (r: Self)
        requires
            forall|m: &mut Self| *m == self ==> call_requires(f, (m,)),
        ensures
            exists|m: &mut Self, ret: R|
                (*m == self && call_ensures(f, (m,), ret) && r == *final(m)),
    ;
}

impl<T> Mutate<T> for T {
    fn mutate<R, F: FnOnce(&mut T) -> R>(self, f: F) -> (r: T)
        ensures
            exists|m: &mut T, ret: R|
                (*m == self && call_ensures(f, (m,), ret) && r == *final(m)),
    {
        let mut val = self;
        f(&mut val);
        val
    }
}

} // verus!
