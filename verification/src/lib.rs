//! Turning an `Option<E>` into a `Result<_, E>`: a value that is there becomes
//! the error, and a value that is missing makes room for a success value,
//! handed over directly ([`OptionExt::err_or`]) or computed on demand
//! ([`OptionExt::err_or_else`]).
//!
//! The meaning of both conversions is given by the spec functions of
//! [`model`]; [`laws`] holds what follows from them.

use vstd::prelude::*;

pub mod model;
pub mod laws;

use crate::model::{err_or_else_outcome, err_or_value};

verus! {

/// Extension trait for [`Option`].
pub trait OptionExt {
    /// Value type, i.e. `T` for `Option<T>`.
    type Item;

    /// The optional value that `self` stands for.
    spec fn as_option(self) -> Option<Self::Item>;

    /// Maps `Some(v)` to `Err(v)` and `None` to `Ok(ok)`.
    ///
    /// `ok` is built by the caller whether or not it ends up in the result;
    /// where building it is costly, [`OptionExt::err_or_else`] builds it only
    /// when it is needed.
    fn err_or<O>(self, ok: O) -> (res: Result<O, Self::Item>)
        ensures
            res == err_or_value(self.as_option(), ok),
    ;

    /// Maps `Some(v)` to `Err(v)` and `None` to `Ok(ok())`.
    ///
    /// The computation is run on `None` only, so only there does its own
    /// precondition have to hold. On `Some(v)` the result is `Err(v)` whatever
    /// `ok` is, and a computation that must not run can still be handed over.
    /// On `None` the value inside `Ok` is an output of `ok`.
    fn err_or_else<O, F>(self, ok: F) -> (res: Result<O, Self::Item>) where F: FnOnce() -> O
        requires
            self.as_option() is None ==> ok.requires(()),
        ensures
            err_or_else_outcome(self.as_option(), ok, res),
    ;
}

/// An `Option` stands for itself, so both conversions can be read off the
/// value directly.
impl<T> OptionExt for Option<T> {
    type Item = T;

    open spec fn as_option(self) -> Option<T> {
        self
    }

    #[inline]
    fn err_or<O>(self, ok: O) -> (res: Result<O, T>)
        ensures
            self matches Some(v) ==> res == Err::<O, T>(v),
            self is None ==> res == Ok::<O, T>(ok),
    {
        match self {
            Some(v) => Err(v),
            None => Ok(ok),
        }
    }

    #[inline]
    fn err_or_else<O, F>(self, ok: F) -> (res: Result<O, T>) where F: FnOnce() -> O
        ensures
            self matches Some(v) ==> res == Err::<O, T>(v),
            self is None ==> res is Ok && ok.ensures((), res->Ok_0),
    {
        match self {
            Some(v) => Err(v),
            None => Ok(ok()),
        }
    }
}

} // verus!
