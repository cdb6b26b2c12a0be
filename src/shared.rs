//! A reference-counted cell: several handles to one heap value, with an
//! identity test and reclamation by the last handle.
use std::rc::Rc;
use vstd::prelude::*;

verus! {

/// Relies on `Rc::clone`: the new handle points to the same allocation, so
/// it holds the same value.
#[verifier::external_body]
fn rc_clone<T>(this: &Rc<T>) -> (r: Rc<T>)
    ensures
        r == *this,
{
    Rc::clone(this)
}

/// Relies on `Rc::ptr_eq`: `true` only when both handles point to one
/// allocation, which then holds one value.
#[verifier::external_body]
fn rc_ptr_eq<T>(a: &Rc<T>, b: &Rc<T>) -> (r: bool)
    ensures
        r ==> *a == *b,
{
    Rc::ptr_eq(a, b)
}

/// A handle to a reference-counted value.
pub struct Shared<T>(Rc<T>);

impl<T> View for Shared<T> {
    type V = T;

    closed spec fn view(&self) -> T {
        *self.0
    }
}

impl<T> Shared<T> {
    /// Allocates `value` behind a first handle.
    pub fn new(value: T) -> (r: Self)
        ensures
            r@ == value,
    {
        Shared(Rc::new(value))
    }

    /// Whether `a` and `b` are handles to the same allocation.
    pub fn ptr_eq(a: &Self, b: &Self) -> (r: bool)
        ensures
            r ==> a@ == b@,
    {
        rc_ptr_eq(&a.0, &b.0)
    }

    /// Returns the value if `this` is its last handle, and gives `this`
    /// back unchanged otherwise.
    pub fn try_unwrap(this: Self) -> (r: Result<T, Self>)
        ensures
            match r {
                Ok(v) => v == this@,
                Err(h) => h == this,
            },
    {
        match Rc::try_unwrap(this.0) {
            Ok(v) => Ok(v),
            Err(rc) => Err(Shared(rc)),
        }
    }

    /// A reference to the value.
    pub fn get(&self) -> (r: &T)
        ensures
            *r == self@,
    {
        &*self.0
    }
}

impl<T> Clone for Shared<T> {
    /// Another handle to the same allocation.
    fn clone(&self) -> (r: Self)
        ensures
            r@ == self@,
    {
        Shared(rc_clone(&self.0))
    }
}

impl<T> std::ops::Deref for Shared<T> {
    type Target = T;

    fn deref(&self) -> (r: &T)
        ensures
            *r == self@,
    {
        &*self.0
    }
}

} // verus!
