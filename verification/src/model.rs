//! What the two conversions compute, as mathematics.

use vstd::prelude::*;

verus! {

/// The result of the eager conversion: a present value is the error, an
/// absent one gives way to `ok`.
pub open spec fn err_or_value<T, O>(opt: Option<T>, ok: O) -> Result<O, T> {
    match opt {
        Some(v) => Err(v),
        None => Ok(ok),
    }
}

/// Whether `res` is a result of the lazy conversion of `opt` with the
/// computation `ok`.
///
/// A computation need not be deterministic, so this is a relation: on `None`
/// every `Ok(o)` with `o` a possible output of `ok` is a result, and nothing
/// else is. On `Some(v)` the one result is `Err(v)`, and `ok` plays no part.
pub open spec fn err_or_else_outcome<T, O, F: FnOnce() -> O>(
    opt: Option<T>,
    ok: F,
    res: Result<O, T>,
) -> bool {
    match opt {
        Some(v) => res == Err::<O, T>(v),
        None => match res {
            Ok(o) => ok.ensures((), o),
            Err(_) => false,
        },
    }
}

} // verus!
