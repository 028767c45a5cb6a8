//! Small helpers that do not belong to any one widget.

use std::sync::Arc;
use vstd::prelude::*;
use vstd::std_specs::convert::FromSpecImpl;

verus! {

/// Steps of a builder that apply only where an optional value is present.
pub trait AnyWithExt: Sized {
    /// Changes `self` with `if_some` and the value where there is one, and
    /// hands `self` back unchanged where there is none.
    #[must_use]
    fn with<T, F: FnOnce(Self, T) -> Self>(self, value: Option<T>, if_some: F) -> (r: Self)
        requires
            value matches Some(v) ==> call_requires(if_some, (self, v)),
        ensures
            match value {
                Some(v) => call_ensures(if_some, (self, v), r),
                None => r == self,
            },
    {
        match value {
            Some(value) => if_some(self, value),
            None => self,
        }
    }

    /// Turns `self` into something else with `if_some` and the value where
    /// there is one, and with `if_none` where there is none.
    #[must_use]
    fn with_else<T, R, F: FnOnce(Self, T) -> R, G: FnOnce(Self) -> R>(
        self,
        value: Option<T>,
        if_some: F,
        if_none: G,
    ) -> (r: R)
        requires
            value matches Some(v) ==> call_requires(if_some, (self, v)),
            value is None ==> call_requires(if_none, (self,)),
        ensures
            match value {
                Some(v) => call_ensures(if_some, (self, v), r),
                None => call_ensures(if_none, (self,), r),
            },
    {
        match value {
            Some(value) => if_some(self, value),
            None => if_none(self),
        }
    }
}

impl<A> AnyWithExt for A {

}

/// A value that lives somewhere: borrowed for the rest of the program, or
/// shared and owned. Either way it can only be read.
pub struct Somewhere<T: 'static + ?Sized>(SomewhereInner<T>);

enum SomewhereInner<T: 'static + ?Sized> {
    /// The value lives elsewhere.
    Borrowed(&'static T),
    /// The value is owned, and shared between the clones.
    Owned(Arc<T>),
}

impl<T: 'static + ?Sized> Somewhere<T> {
    /// The value held.
    pub closed spec fn value(&self) -> &T {
        match &self.0 {
            SomewhereInner::Borrowed(value) => *value,
            SomewhereInner::Owned(value) => &**value,
        }
    }
}

impl<T: 'static + ?Sized> From<&'static T> for Somewhere<T> {
    fn from(value: &'static T) -> (r: Self)
        ensures
            r.value() == value,
    {
        Somewhere(SomewhereInner::Borrowed(value))
    }
}

impl<T: 'static + ?Sized> FromSpecImpl<&'static T> for Somewhere<T> {
    open spec fn obeys_from_spec() -> bool {
        true
    }

    closed spec fn from_spec(value: &'static T) -> Self {
        Somewhere(SomewhereInner::Borrowed(value))
    }
}

impl<T: 'static> From<T> for Somewhere<T> {
    fn from(value: T) -> (r: Self)
        ensures
            r.value() == &value,
    {
        Somewhere(SomewhereInner::Owned(Arc::new(value)))
    }
}

impl<T: 'static> FromSpecImpl<T> for Somewhere<T> {
    open spec fn obeys_from_spec() -> bool {
        true
    }

    closed spec fn from_spec(value: T) -> Self {
        Somewhere(SomewhereInner::Owned(Arc::new(value)))
    }
}

impl<T: 'static + ?Sized> From<Arc<T>> for Somewhere<T> {
    fn from(value: Arc<T>) -> (r: Self)
        ensures
            r.value() == &*value,
    {
        Somewhere(SomewhereInner::Owned(value))
    }
}

impl<T: 'static + ?Sized> FromSpecImpl<Arc<T>> for Somewhere<T> {
    open spec fn obeys_from_spec() -> bool {
        true
    }

    closed spec fn from_spec(value: Arc<T>) -> Self {
        Somewhere(SomewhereInner::Owned(value))
    }
}

impl<T: 'static + ?Sized> core::ops::Deref for Somewhere<T> {
    type Target = T;

    fn deref(&self) -> (r: &T)
        ensures
            r == self.value(),
    {
        match &self.0 {
            SomewhereInner::Borrowed(value) => *value,
            SomewhereInner::Owned(value) => &**value,
        }
    }
}

impl<T: 'static + ?Sized> Clone for Somewhere<T> {
    fn clone(&self) -> (r: Self)
        ensures
            r.value() == self.value(),
    {
        match &self.0 {
            SomewhereInner::Borrowed(value) => Somewhere(SomewhereInner::Borrowed(*value)),
            SomewhereInner::Owned(value) => Somewhere(SomewhereInner::Owned(share(value))),
        }
    }
}

/// Calls `Arc::clone`, which makes another handle to the same value.
#[verifier::external_body]
fn share<T: ?Sized>(value: &Arc<T>) -> (r: Arc<T>)
    ensures
        r == *value,
{
    Arc::clone(value)
}

} // verus!
