use crate::capability::Shapeless;
use vstd::prelude::*;

verus! {

/// The message carried by a failed `convert`.
pub const CONVERSION_FAILED: &'static str = "Conversion failed";

/// Relies on std::any::Any::is: true only when the concrete type of `a` is
/// `T`, and then `S` and `T` carry the same tag.
#[verifier::external_body]
fn any_is<S: Shapeless, T: Shapeless>(a: &S) -> (r: bool)
    ensures
        r ==> S::TAG == T::TAG,
{
    (a as &dyn std::any::Any).is::<T>()
}

/// Relies on std::any::Any::is: a value is always of its own concrete type.
#[verifier::external_body]
fn any_is_self<S: Shapeless>(a: &S) -> (r: bool)
    ensures
        r,
{
    (a as &dyn std::any::Any).is::<S>()
}

/// Relies on std::any::Any::downcast_ref: `Some` only when the concrete type
/// of `a` is `T`, and then `S` and `T` carry the same tag.
#[verifier::external_body]
fn any_downcast<S: Shapeless, T: Shapeless>(a: &S) -> (r: Option<&T>)
    ensures
        r is Some ==> S::TAG == T::TAG,
{
    (a as &dyn std::any::Any).downcast_ref::<T>()
}

/// Relies on std::any::Any::downcast_ref: narrowing a value to its own
/// concrete type gives back the same reference.
#[verifier::external_body]
fn any_downcast_self<S: Shapeless>(a: &S) -> (r: Option<&S>)
    ensures
        r == Some(a),
{
    (a as &dyn std::any::Any).downcast_ref::<S>()
}

/// Relies on the `Debug` formatting of `a`, whose text is chosen by the type.
#[verifier::external_body]
fn debug_text<S: Shapeless>(a: &S) -> String {
    format!("{:?}", a)
}

/// Tells whether `arg` is a value of the concrete type `T`. It is false
/// whenever the two types carry different tags.
pub fn is_type<T: Shapeless, S: Shapeless>(arg: &S) -> (r: bool)
    ensures
        S::TAG != T::TAG ==> !r,
{
    any_is::<S, T>(arg)
}

/// Tells whether `arg` is a value of its own concrete type: always true.
pub fn is_own_type<S: Shapeless>(arg: &S) -> (r: bool)
    ensures
        r,
{
    any_is_self::<S>(arg)
}

/// Narrows `arg` to a reference of the concrete type `T`, if that is its type.
/// It is absent whenever the two types carry different tags.
pub fn downcast_ref<T: Shapeless, S: Shapeless>(arg: &S) -> (r: Option<&T>)
    ensures
        S::TAG != T::TAG ==> r is None,
{
    any_downcast::<S, T>(arg)
}

/// Narrows `arg` to its own concrete type: always the same reference.
pub fn downcast_own<S: Shapeless>(arg: &S) -> (r: Option<&S>)
    ensures
        r == Some(arg),
{
    any_downcast_self::<S>(arg)
}

/// Converts a reference of type `T` into one of type `U`; fails with
/// `CONVERSION_FAILED` unless `U` is the concrete type of `arg`, in particular
/// whenever the two types carry different tags.
pub fn convert<T: Shapeless, U: Shapeless>(arg: &T) -> (r: Result<&U, &'static str>)
    ensures
        T::TAG != U::TAG ==> r is Err,
        r matches Err(e) ==> e@ == CONVERSION_FAILED@,
{
    match downcast_ref::<U, T>(arg) {
        Some(val) => Ok(val),
        None => Err(CONVERSION_FAILED),
    }
}

/// Converts a reference into one of its own concrete type: always succeeds
/// with the same reference.
pub fn convert_own<T: Shapeless>(arg: &T) -> (r: Result<&T, &'static str>)
    ensures
        r == Ok::<&T, &'static str>(arg),
{
    match downcast_own(arg) {
        Some(val) => Ok(val),
        None => Err(CONVERSION_FAILED),
    }
}

/// The text that `arg` is shown as: its `Debug` form.
pub fn render<T: Shapeless>(arg: &T) -> String {
    debug_text(arg)
}

} // verus!
