//! Share-on-write values: borrowed, or shared behind a reference count.

use vstd::prelude::*;

use std::rc::Rc;
use std::sync::Arc;

verus! {

/// Relies on `Arc::try_unwrap`: the value itself where this is the only
/// strong reference, the same `Arc` back otherwise.
#[verifier::external_body]
fn arc_try_unwrap<T>(shared: Arc<T>) -> (r: Result<T, Arc<T>>)
    ensures
        match r {
            Ok(v) => v == *shared,
            Err(back) => back == shared,
        },
{
    Arc::try_unwrap(shared)
}

/// Relies on `Rc::clone`: a new handle to the same value.
#[verifier::external_body]
fn rc_clone<T: ?Sized>(shared: &Rc<T>) -> (r: Rc<T>)
    ensures
        r == *shared,
{
    Rc::clone(shared)
}

/// Relies on `Arc::clone`: a new handle to the same value.
#[verifier::external_body]
fn arc_clone<T: ?Sized>(shared: &Arc<T>) -> (r: Arc<T>)
    ensures
        r == *shared,
{
    Arc::clone(shared)
}

/// Relies on `From<String> for Rc<str>`: the same text behind an `Rc`.
#[verifier::external_body]
fn rc_from_string(text: String) -> (r: Rc<str>)
    ensures
        (*r)@ == text@,
{
    Rc::from(text)
}

/// Relies on `From<String> for Arc<str>`: the same text behind an `Arc`.
#[verifier::external_body]
fn arc_from_string(text: String) -> (r: Arc<str>)
    ensures
        (*r)@ == text@,
{
    Arc::from(text)
}

/// A share-on-write value: borrowed, or shared behind an `Rc`.
#[derive(Debug)]
pub enum Sow<'r, T: ?Sized> {
    Reference(&'r T),
    Shared(Rc<T>),
}

impl<'r, T: ?Sized> Sow<'r, T> {
    /// The value this refers to.
    pub open spec fn value(&self) -> &T {
        match self {
            Sow::Reference(r) => *r,
            Sow::Shared(rc) => &**rc,
        }
    }

    /// Whether this borrows its value.
    pub fn is_reference(&self) -> (r: bool)
        ensures
            r <==> self is Reference,
    {
        match self {
            Sow::Reference(_) => true,
            Sow::Shared(_) => false,
        }
    }

    /// Whether this shares its value.
    pub fn is_shared(&self) -> (r: bool)
        ensures
            r <==> self is Shared,
    {
        match self {
            Sow::Reference(_) => false,
            Sow::Shared(_) => true,
        }
    }

    /// The value this refers to.
    pub fn get(&self) -> (r: &T)
        ensures
            r == self.value(),
    {
        match self {
            Sow::Reference(s) => s,
            Sow::Shared(shared) => &**shared,
        }
    }

    /// Another handle to the same value: the same borrow, or a new handle to
    /// the shared value.
    pub fn share(&self) -> (r: Sow<'r, T>)
        ensures
            r.value() == self.value(),
            r is Reference <==> self is Reference,
    {
        match self {
            Sow::Reference(s) => Sow::Reference(s),
            Sow::Shared(shared) => Sow::Shared(rc_clone(shared)),
        }
    }
}

impl<'r, T: ?Sized> std::ops::Deref for Sow<'r, T> {
    type Target = T;

    fn deref(&self) -> &T {
        self.get()
    }
}

impl<'r, T: ?Sized> AsRef<T> for Sow<'r, T> {
    fn as_ref(&self) -> &T {
        self.get()
    }
}

impl<'r, T: ?Sized> std::borrow::Borrow<T> for Sow<'r, T> {
    fn borrow(&self) -> &T {
        self.get()
    }
}

impl<'r, T: ?Sized> Clone for Sow<'r, T> {
    fn clone(&self) -> Self {
        self.share()
    }
}

impl<T: Default> Default for Sow<'static, T> {
    fn default() -> Self {
        Sow::Shared(Rc::new(T::default()))
    }
}

impl<'r, T> From<&'r T> for Sow<'r, T> {
    fn from(value: &'r T) -> Self {
        Sow::Reference(value)
    }
}

impl<'r, T> vstd::std_specs::convert::FromSpecImpl<&'r T> for Sow<'r, T> {
    open spec fn obeys_from_spec() -> bool {
        true
    }

    open spec fn from_spec(value: &'r T) -> Self {
        Sow::Reference(value)
    }
}

impl Sow<'static, str> {
    /// Shares `text`.
    pub fn from_string(text: String) -> (r: Sow<'static, str>)
        ensures
            r is Shared,
            r.value()@ == text@,
    {
        Sow::Shared(rc_from_string(text))
    }
}

impl<'r, T: Clone> Sow<'r, T> {
    /// The value, owned: a borrowed value is cloned; a shared one is taken
    /// out of its `Rc` where this was its only owner, and cloned otherwise.
    pub fn into_owned(self) -> (r: T)
        ensures
            cloned(*self.value(), r),
    {
        match self {
            Sow::Reference(s) => s.clone(),
            Sow::Shared(s) => match Rc::try_unwrap(s) {
                Ok(v) => v,
                Err(s) => (*s).clone(),
            },
        }
    }
}

/// A share-on-write value that can cross threads: borrowed, or shared behind
/// an `Arc`.
#[derive(Debug)]
pub enum ASow<'r, T: ?Sized> {
    Reference(&'r T),
    Shared(Arc<T>),
}

impl<'r, T: ?Sized> ASow<'r, T> {
    /// The value this refers to.
    pub open spec fn value(&self) -> &T {
        match self {
            ASow::Reference(r) => *r,
            ASow::Shared(arc) => &**arc,
        }
    }

    /// Whether this borrows its value.
    pub fn is_reference(&self) -> (r: bool)
        ensures
            r <==> self is Reference,
    {
        match self {
            ASow::Reference(_) => true,
            ASow::Shared(_) => false,
        }
    }

    /// Whether this shares its value.
    pub fn is_shared(&self) -> (r: bool)
        ensures
            r <==> self is Shared,
    {
        match self {
            ASow::Reference(_) => false,
            ASow::Shared(_) => true,
        }
    }

    /// The value this refers to.
    pub fn get(&self) -> (r: &T)
        ensures
            r == self.value(),
    {
        match self {
            ASow::Reference(s) => s,
            ASow::Shared(shared) => &**shared,
        }
    }

    /// Another handle to the same value: the same borrow, or a new handle to
    /// the shared value.
    pub fn share(&self) -> (r: ASow<'r, T>)
        ensures
            r.value() == self.value(),
            r is Reference <==> self is Reference,
    {
        match self {
            ASow::Reference(s) => ASow::Reference(s),
            ASow::Shared(shared) => ASow::Shared(arc_clone(shared)),
        }
    }
}

impl<'r, T: ?Sized> std::ops::Deref for ASow<'r, T> {
    type Target = T;

    fn deref(&self) -> &T {
        self.get()
    }
}

impl<'r, T: ?Sized> AsRef<T> for ASow<'r, T> {
    fn as_ref(&self) -> &T {
        self.get()
    }
}

impl<'r, T: ?Sized> std::borrow::Borrow<T> for ASow<'r, T> {
    fn borrow(&self) -> &T {
        self.get()
    }
}

impl<'r, T: ?Sized> Clone for ASow<'r, T> {
    fn clone(&self) -> Self {
        self.share()
    }
}

impl<T: Default> Default for ASow<'static, T> {
    fn default() -> Self {
        ASow::Shared(Arc::new(T::default()))
    }
}

impl<'r, T> From<&'r T> for ASow<'r, T> {
    fn from(value: &'r T) -> Self {
        ASow::Reference(value)
    }
}

impl<'r, T> vstd::std_specs::convert::FromSpecImpl<&'r T> for ASow<'r, T> {
    open spec fn obeys_from_spec() -> bool {
        true
    }

    open spec fn from_spec(value: &'r T) -> Self {
        ASow::Reference(value)
    }
}

impl ASow<'static, str> {
    /// Shares `text`.
    pub fn from_string(text: String) -> (r: ASow<'static, str>)
        ensures
            r is Shared,
            r.value()@ == text@,
    {
        ASow::Shared(arc_from_string(text))
    }
}

impl<'r, T: Clone> ASow<'r, T> {
    /// The value, owned: a borrowed value is cloned; a shared one is taken
    /// out of its `Arc` where this was its only owner, and cloned otherwise.
    pub fn into_owned(self) -> (r: T)
        ensures
            cloned(*self.value(), r),
    {
        match self {
            ASow::Reference(s) => s.clone(),
            ASow::Shared(s) => match arc_try_unwrap(s) {
                Ok(v) => v,
                Err(s) => (*s).clone(),
            },
        }
    }
}

impl<'r, T: ?Sized + PartialEq> PartialEq for Sow<'r, T> {
    /// Equal where the values are.
    fn eq(&self, other: &Self) -> (r: bool) {
        self.get().eq(other.get())
    }
}

impl<'r, T: ?Sized + PartialEq> vstd::std_specs::cmp::PartialEqSpecImpl for Sow<'r, T> {
    open spec fn obeys_eq_spec() -> bool {
        <T as vstd::std_specs::cmp::PartialEqSpec>::obeys_eq_spec()
    }

    open spec fn eq_spec(&self, other: &Self) -> bool {
        <T as vstd::std_specs::cmp::PartialEqSpec>::eq_spec(self.value(), other.value())
    }
}

impl<'r, T: ?Sized + Eq> Eq for Sow<'r, T> {

}

impl<'r, T: ?Sized + PartialEq> PartialEq for ASow<'r, T> {
    /// Equal where the values are.
    fn eq(&self, other: &Self) -> (r: bool) {
        self.get().eq(other.get())
    }
}

impl<'r, T: ?Sized + PartialEq> vstd::std_specs::cmp::PartialEqSpecImpl for ASow<'r, T> {
    open spec fn obeys_eq_spec() -> bool {
        <T as vstd::std_specs::cmp::PartialEqSpec>::obeys_eq_spec()
    }

    open spec fn eq_spec(&self, other: &Self) -> bool {
        <T as vstd::std_specs::cmp::PartialEqSpec>::eq_spec(self.value(), other.value())
    }
}

impl<'r, T: ?Sized + Eq> Eq for ASow<'r, T> {

}

} // verus!
