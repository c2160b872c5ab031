//! Laws of the two conversions, proved from their model.

use vstd::prelude::*;
use crate::model::{err_or_else_outcome, err_or_value};

verus! {

/// A present value always comes out as the error, whatever success value was
/// offered.
pub proof fn lemma_present_is_err<T, O>(v: T, ok: O)
    ensures
        err_or_value(Some(v), ok) == Err::<O, T>(v),
{
}

/// An absent value always gives the success value that was offered.
pub proof fn lemma_absent_is_ok<T, O>(ok: O)
    ensures
        err_or_value(None::<T>, ok) == Ok::<O, T>(ok),
{
}

/// On a present value the lazy conversion has exactly one result, the error
/// that carries the value. The computation does not enter into it: the law
/// asks nothing of `ok`, not even that it could be called.
pub proof fn lemma_lazy_present_is_err<T, O, F: FnOnce() -> O>(v: T, ok: F, res: Result<O, T>)
    ensures
        err_or_else_outcome(Some(v), ok, res) <==> res == Err::<O, T>(v),
{
}

/// On an absent value the results of the lazy conversion are exactly the
/// successes that carry an output of the computation.
pub proof fn lemma_lazy_absent_is_ok<T, O, F: FnOnce() -> O>(ok: F, res: Result<O, T>)
    ensures
        err_or_else_outcome(None::<T>, ok, res) <==> exists|o: O|
            ok.ensures((), o) && res == Ok::<O, T>(o),
{
    if let Ok(o) = res {
        if ok.ensures((), o) {
            assert(ok.ensures((), o) && res == Ok::<O, T>(o));
        }
    }
}

/// Lazy and eager conversion agree: where the computation can only return
/// `value`, every result of the lazy conversion is the result of the eager
/// conversion with `value`.
pub proof fn lemma_lazy_agrees_with_eager<T, O, F: FnOnce() -> O>(
    opt: Option<T>,
    ok: F,
    value: O,
    res: Result<O, T>,
)
    requires
        forall|o: O| ok.ensures((), o) ==> o == value,
        err_or_else_outcome(opt, ok, res),
    ensures
        res == err_or_value(opt, value),
{
}

/// The eager conversion is the lazy one with a computation that returns the
/// value offered: the eager result is among the lazy results of every
/// computation of which `value` is an output.
pub proof fn lemma_eager_is_a_lazy_result<T, O, F: FnOnce() -> O>(opt: Option<T>, ok: F, value: O)
    requires
        ok.ensures((), value),
    ensures
        err_or_else_outcome(opt, ok, err_or_value(opt, value)),
{
}

/// The conversion only moves the optional value to the error side and leaves
/// it as it was: reading the error side of the result gives the optional
/// value back, whatever success value was offered.
pub proof fn lemma_err_side_is_the_option<T, O>(opt: Option<T>, ok: O)
    ensures
        (match err_or_value(opt, ok) {
            Ok(_) => None,
            Err(v) => Some(v),
        }) == opt,
        err_or_value(opt, ok) is Err <==> opt is Some,
{
}

/// The same holds of every result of the lazy conversion.
pub proof fn lemma_lazy_err_side_is_the_option<T, O, F: FnOnce() -> O>(
    opt: Option<T>,
    ok: F,
    res: Result<O, T>,
)
    requires
        err_or_else_outcome(opt, ok, res),
    ensures
        (match res {
            Ok(_) => None,
            Err(v) => Some(v),
        }) == opt,
{
}

} // verus!
