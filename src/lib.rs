//! Fluent helpers that turn the unit value into whatever value an expression
//! needs, and that turn any value into the unit value.
//!
//! A `T::default()` result is described by `call_ensures(T::default, (), r)`:
//! whatever the `Default` implementation of `T` promises holds of `r`. For the
//! integer types, `bool`, `char`, `()` and `Option` this pins `r` to the
//! standard zero value.
use vstd::prelude::*;

verus! {

/// Methods on the unit value `()` that build a value of the shape the
/// surrounding expression needs, right after a side effect.
///
/// None of them can fail: each one only constructs and returns a value.
pub trait UnitExt: Sized {
    /// Returns `value` unchanged.
    fn ret<T>(self, value: T) -> (r: T)
        ensures
            r == value,
    {
        value
    }

    /// Returns `T::default()`.
    fn ret_default<T: Default>(self) -> (r: T)
        ensures
            call_ensures(T::default, (), r),
    {
        T::default()
    }

    /// Returns `None`.
    fn ret_none<T>(self) -> (r: Option<T>)
        ensures
            r == Option::<T>::None,
    {
        None
    }

    /// Returns `Some(value)`.
    fn ret_some<T>(self, value: T) -> (r: Option<T>)
        ensures
            r == Some(value),
    {
        Some(value)
    }

    /// Returns `Some(T::default())`.
    fn ret_some_default<T: Default>(self) -> (r: Option<T>)
        ensures
            r is Some,
            call_ensures(T::default, (), r->Some_0),
    {
        Some(self.ret_default::<T>())
    }

    /// Returns `Err(value)`.
    fn ret_err<T, E>(self, value: E) -> (r: Result<T, E>)
        ensures
            r == Err::<T, E>(value),
    {
        Err(value)
    }

    /// Returns `Err(E::default())`.
    fn ret_err_default<T, E: Default>(self) -> (r: Result<T, E>)
        ensures
            r is Err,
            call_ensures(E::default, (), r->Err_0),
    {
        self.ret_err(E::default())
    }

    /// Returns `Ok(value)`.
    fn ret_ok<T, E>(self, value: T) -> (r: Result<T, E>)
        ensures
            r == Ok::<T, E>(value),
    {
        Ok(value)
    }

    /// Returns `Ok(T::default())`.
    fn ret_ok_default<T: Default, E>(self) -> (r: Result<T, E>)
        ensures
            r is Ok,
            call_ensures(T::default, (), r->Ok_0),
    {
        self.ret_ok(T::default())
    }
}

/// Methods on any value that throw the value away on purpose and yield `()`.
pub trait RetExt: Sized {
    /// Consumes `self` and returns `()`, as `let _ = self;` would.
    fn discard_self(self) -> (r: ())
        ensures
            r == (),
    {
        let _ = self;
    }

    /// The same as `discard_self`, for use at the end of a chain.
    fn discard_ret(self) -> (r: ())
        ensures
            r == (),
    {
        self.discard_self()
    }
}

impl UnitExt for () {}

impl<T> RetExt for T {}

} // verus!
