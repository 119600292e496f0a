//! The wrapper type and its forwarding surface.

use vstd::prelude::*;

use vstd::pervasive::cloned;
use vstd::std_specs::cmp::OrdSpec;
use vstd::std_specs::cmp::PartialEqSpec;
use vstd::std_specs::cmp::PartialEqSpecImpl;
use vstd::std_specs::cmp::PartialOrdSpec;
use vstd::std_specs::cmp::PartialOrdSpecImpl;

verus! {

/// A single-field container for a value of `T`.
///
/// A wrapped value never exists without an inner value, carries no other
/// state, and forwards reading, equality and ordering to the inner value.
#[derive(Debug)]
pub struct StringWrapped<T>(pub T);

impl<T> StringWrapped<T> {
    /// Wraps an already-parsed inner value.
    pub fn new(inner: T) -> (r: Self)
        ensures
            r.0 == inner,
    {
        StringWrapped(inner)
    }

    /// Exposes the inner value by reference, without copying it.
    pub fn as_ref(&self) -> (r: &T)
        ensures
            *r == self.0,
    {
        &self.0
    }

    /// Releases the inner value to the caller.
    pub fn into_inner(self) -> (r: T)
        ensures
            r == self.0,
    {
        self.0
    }

    /// The total ordering of wrapped values, where the inner type has
    /// one: exactly the inner type's own comparison.
    pub fn compare(&self, other: &Self) -> (r: core::cmp::Ordering) where T: Ord
        ensures
            T::obeys_cmp_spec() ==> r == OrdSpec::cmp_spec(&self.0, &other.0),
    {
        self.0.cmp(&other.0)
    }

    /// The human-readable form of this wrapped value: the wrapper's name
    /// around the inner value's own display form.
    ///
    /// Relies on `format!` with the inner type's `Display`: it writes the
    /// two literal pieces around whatever text the inner value displays as.
    #[verifier::external_body]
    pub fn display_string(&self) -> (r: String) where T: core::fmt::Display
        ensures
            r@.len() >= 15,
            r@.subrange(0, 14) == "StringWrapped("@,
            r@[r@.len() - 1] == ')',
    {
        format!("StringWrapped({})", self.0)
    }

    /// The debugging form of this wrapped value: the wrapper's name around
    /// the inner value's own debug form.
    ///
    /// Relies on `format!` with the inner type's `Debug`: it writes the
    /// two literal pieces around whatever text the inner value's debug
    /// form is.
    #[verifier::external_body]
    pub fn debug_string(&self) -> (r: String) where T: core::fmt::Debug
        ensures
            r@.len() >= 15,
            r@.subrange(0, 14) == "StringWrapped("@,
            r@[r@.len() - 1] == ')',
    {
        format!("StringWrapped({:?})", self.0)
    }
}

impl<T> core::ops::Deref for StringWrapped<T> {
    type Target = T;

    /// Implicit read access: a wrapped value can stand wherever a
    /// reference to the inner type is expected.
    fn deref(&self) -> (r: &T)
        ensures
            *r == self.0,
    {
        &self.0
    }
}

impl<T: Clone> Clone for StringWrapped<T> {
    /// An independent wrapped value around a duplicate of the inner value.
    fn clone(&self) -> (r: Self)
        ensures
            cloned::<T>(self.0, r.0),
    {
        StringWrapped(self.0.clone())
    }
}

/// Equality of wrapped values is exactly equality of the inner values:
/// the wrapper adds no comparison logic of its own.
impl<T: PartialEq> PartialEq for StringWrapped<T> {
    fn eq(&self, other: &Self) -> (r: bool) {
        self.0 == other.0
    }
}

impl<T: PartialEq> PartialEqSpecImpl for StringWrapped<T> {
    open spec fn obeys_eq_spec() -> bool {
        T::obeys_eq_spec()
    }

    open spec fn eq_spec(&self, other: &Self) -> bool {
        self.0.eq_spec(&other.0)
    }
}

impl<T: Eq> Eq for StringWrapped<T> {}

/// The ordering of wrapped values is exactly the ordering of the inner
/// values: where the inner type leaves two values incomparable, the
/// wrapped values are incomparable too.
impl<T: PartialOrd> PartialOrd for StringWrapped<T> {
    fn partial_cmp(&self, other: &Self) -> (r: Option<core::cmp::Ordering>) {
        self.0.partial_cmp(&other.0)
    }
}

impl<T: PartialOrd> PartialOrdSpecImpl for StringWrapped<T> {
    open spec fn obeys_partial_cmp_spec() -> bool {
        T::obeys_partial_cmp_spec()
    }

    open spec fn partial_cmp_spec(&self, other: &Self) -> Option<core::cmp::Ordering> {
        self.0.partial_cmp_spec(&other.0)
    }
}

/// Equality consistency: two wrapped values are equal exactly when their
/// inner values are equal, under the inner type's own notion of equality.
pub proof fn lemma_eq_consistency<T: PartialEq>(a: &StringWrapped<T>, b: &StringWrapped<T>)
    ensures
        <StringWrapped<T> as PartialEqSpec>::obeys_eq_spec() == T::obeys_eq_spec(),
        PartialEqSpec::eq_spec(a, b) <==> PartialEqSpec::eq_spec(&a.0, &b.0),
{
}

/// Ordering consistency: wrapped values compare exactly as their inner
/// values do, with no wrapper-specific tie-breaking; in particular, inner
/// values that are incomparable stay incomparable once wrapped.
pub proof fn lemma_ord_consistency<T: PartialOrd>(a: &StringWrapped<T>, b: &StringWrapped<T>)
    ensures
        <StringWrapped<T> as PartialOrdSpec>::obeys_partial_cmp_spec()
            == T::obeys_partial_cmp_spec(),
        PartialOrdSpec::partial_cmp_spec(a, b) == PartialOrdSpec::partial_cmp_spec(&a.0, &b.0),
        (PartialOrdSpec::partial_cmp_spec(a, b) == Some(core::cmp::Ordering::Less)) <==> (
        PartialOrdSpec::partial_cmp_spec(&a.0, &b.0) == Some(core::cmp::Ordering::Less)),
        (PartialOrdSpec::partial_cmp_spec(a, b) is None) <==> (PartialOrdSpec::partial_cmp_spec(
            &a.0,
            &b.0,
        ) is None),
{
}

} // verus!
