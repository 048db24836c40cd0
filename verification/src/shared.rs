//! A value shared between several owners on one thread, each of which may
//! read or change it: a reference-counted cell.
use std::cell::{BorrowError, BorrowMutError, Ref, RefCell, RefMut};
use std::rc::Rc;
use vstd::prelude::*;

verus! {

#[verifier::external_type_specification]
#[verifier::external_body]
#[verifier::reject_recursive_types(T)]
pub struct ExRefCell<T: ?Sized>(RefCell<T>);

#[verifier::external_type_specification]
#[verifier::external_body]
#[verifier::reject_recursive_types(T)]
pub struct ExRef<'b, T: ?Sized>(Ref<'b, T>);

#[verifier::external_type_specification]
#[verifier::external_body]
#[verifier::reject_recursive_types(T)]
pub struct ExRefMut<'b, T: ?Sized + 'b>(RefMut<'b, T>);

#[verifier::external_type_specification]
#[verifier::external_body]
pub struct ExBorrowError(BorrowError);

#[verifier::external_type_specification]
#[verifier::external_body]
pub struct ExBorrowMutError(BorrowMutError);

/// Calls `RefCell::new`. The cell's contents are not modelled, so nothing is
/// claimed of the result.
#[verifier::external_body]
fn cell_new<T>(value: T) -> RefCell<T> {
    RefCell::new(value)
}

/// Calls `RefCell::try_borrow`, which never panics: it gives an error while
/// the cell is borrowed for writing. The borrow state is not modelled, so
/// which of the two comes back is not claimed, nor what the guard reads.
#[verifier::external_body]
fn cell_try_borrow<T>(cell: &RefCell<T>) -> Result<Ref<'_, T>, BorrowError> {
    cell.try_borrow()
}

/// Calls `RefCell::try_borrow_mut`, which never panics: it gives an error
/// while the cell is borrowed at all. Which of the two comes back is not
/// claimed, nor what the guard reads.
#[verifier::external_body]
fn cell_try_borrow_mut<T>(cell: &RefCell<T>) -> Result<RefMut<'_, T>, BorrowMutError> {
    cell.try_borrow_mut()
}

/// Calls `RefCell::try_borrow_mut`; when the cell could be borrowed, hands the
/// contents to `f` and returns what `f` returns, which is then a result `f`
/// can give; otherwise returns the error without calling `f`. Which of the
/// two happens depends on the cell's borrow state, which is not modelled;
/// which argument `f` got is not claimed either.
#[verifier::external_body]
fn cell_with<T, R, F: FnOnce(&mut T) -> R>(cell: &RefCell<T>, f: F) -> (r: Result<R, BorrowMutError>)
    requires
        forall|a: (&mut T,)| f.requires(a),
    ensures
        r matches Ok(v) ==> exists|a: (&mut T,)| f.ensures(a, v),
{
    match cell.try_borrow_mut() {
        Ok(mut guard) => Ok(f(&mut *guard)),
        Err(e) => Err(e),
    }
}

/// The shared value could not be borrowed: it is borrowed already, for
/// writing, or for reading where writing was asked for.
#[derive(Debug, Clone, Copy, PartialEq, Eq, Structural)]
pub struct AlreadyBorrowed;

/// A value owned jointly by every clone of the handle; each clone sees the
/// changes made through the others.
#[verifier::reject_recursive_types(T)]
pub struct Shared<T>(Rc<RefCell<T>>);

impl<A> Clone for Shared<A> {
    /// Another handle on the same value.
    fn clone(&self) -> (res: Shared<A>)
        ensures
            res == *self,
    {
        let value = Rc::clone(&self.0);
        Shared(value)
    }
}

impl<T> From<T> for Shared<T> {
    /// Puts `value` into a new shared cell.
    fn from(value: T) -> Shared<T> {
        Shared::new(value)
    }
}

impl<T> vstd::std_specs::convert::FromSpecImpl<T> for Shared<T> {
    /// The new cell's contents are not modelled, so no result is promised
    /// beyond a handle on a cell.
    open spec fn obeys_from_spec() -> bool {
        false
    }

    open spec fn from_spec(v: T) -> Shared<T> {
        vstd::pervasive::arbitrary()
    }
}

impl<T> Shared<T> {
    /// Puts `value` into a new shared cell.
    pub fn new(value: T) -> Shared<T> {
        let value = cell_new(value);
        let value = Rc::new(value);
        Shared(value)
    }

    /// Borrows the shared value for reading; fails while it is borrowed for
    /// writing.
    pub fn borrow(&self) -> Result<Ref<'_, T>, AlreadyBorrowed> {
        match cell_try_borrow(&self.0) {
            Ok(guard) => Ok(guard),
            Err(_) => Err(AlreadyBorrowed),
        }
    }

    /// Borrows the shared value for writing; fails while it is borrowed.
    pub fn borrow_mut(&self) -> Result<RefMut<'_, T>, AlreadyBorrowed> {
        match cell_try_borrow_mut(&self.0) {
            Ok(guard) => Ok(guard),
            Err(_) => Err(AlreadyBorrowed),
        }
    }

    /// Hands a write guard on the shared value to `u`; fails, without
    /// calling `u`, while the value is borrowed.
    pub fn update<F: FnOnce(RefMut<'_, T>)>(&self, u: F) -> (r: Result<(), AlreadyBorrowed>)
        requires
            forall|a: (RefMut<'_, T>,)| u.requires(a),
        ensures
            r is Ok ==> exists|a: (RefMut<'_, T>,)| u.ensures(a, ()),
    {
        match self.borrow_mut() {
            Ok(guard) => {
                u(guard);
                Ok(())
            },
            Err(e) => Err(e),
        }
    }

    /// Runs `u` on the shared value, borrowed for writing, and returns what
    /// `u` returns; fails, without calling `u`, while the value is borrowed,
    /// as it is inside a `u` of another `with` on the same value.
    pub fn with<R, F: FnOnce(&mut T) -> R>(&self, u: F) -> (r: Result<R, AlreadyBorrowed>)
        requires
            forall|a: (&mut T,)| u.requires(a),
        ensures
            r is Ok ==> exists|a: (&mut T,)| u.ensures(a, r->Ok_0),
    {
        let res = cell_with(&self.0, u);
        match res {
            Ok(v) => {
                let r = Ok(v);
                assert(r->Ok_0 == v);
                assert(exists|a: (&mut T,)| u.ensures(a, r->Ok_0));
                r
            },
            Err(_) => Err(AlreadyBorrowed),
        }
    }
}

} // verus!
