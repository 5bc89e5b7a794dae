//! The access primitives of the standard library that the handles rest on.
//!
//! Nothing is claimed here of what a lock or a cell holds: what comes out of
//! one is whatever was last put in, by any handle, and the verified code
//! treats it as an arbitrary value of its type.

use std::cell::{BorrowError, BorrowMutError, Cell, Ref, RefCell, RefMut};
use std::sync::{LockResult, Mutex, MutexGuard, PoisonError};
use vstd::prelude::*;

verus! {

/// `std::sync::Mutex`, held opaque.
#[verifier::external_type_specification]
#[verifier::external_body]
#[verifier::reject_recursive_types(T)]
pub struct ExMutex<T: ?Sized>(Mutex<T>);

/// `std::sync::MutexGuard`, held opaque.
#[verifier::external_type_specification]
#[verifier::external_body]
#[verifier::reject_recursive_types(T)]
pub struct ExMutexGuard<'a, T: ?Sized + 'a>(MutexGuard<'a, T>);

/// `std::sync::PoisonError`, held opaque.
#[verifier::external_type_specification]
#[verifier::external_body]
#[verifier::reject_recursive_types(T)]
pub struct ExPoisonError<T>(PoisonError<T>);

/// `std::cell::RefCell`, held opaque.
#[verifier::external_type_specification]
#[verifier::external_body]
#[verifier::reject_recursive_types(T)]
pub struct ExRefCell<T: ?Sized>(RefCell<T>);

/// `std::cell::Ref`, held opaque.
#[verifier::external_type_specification]
#[verifier::external_body]
#[verifier::reject_recursive_types(T)]
pub struct ExRef<'b, T: ?Sized>(Ref<'b, T>);

/// `std::cell::RefMut`, held opaque.
#[verifier::external_type_specification]
#[verifier::external_body]
#[verifier::reject_recursive_types(T)]
pub struct ExRefMut<'b, T: ?Sized + 'b>(RefMut<'b, T>);

/// `std::cell::BorrowError`, held opaque.
#[verifier::external_type_specification]
#[verifier::external_body]
pub struct ExBorrowError(BorrowError);

/// `std::cell::BorrowMutError`, held opaque.
#[verifier::external_type_specification]
#[verifier::external_body]
pub struct ExBorrowMutError(BorrowMutError);

/// `std::cell::Cell`, held opaque.
#[verifier::external_type_specification]
#[verifier::external_body]
#[verifier::reject_recursive_types(T)]
pub struct ExCell<T: ?Sized>(Cell<T>);

/// `Mutex::new`: a mutex around `t`. Nothing is claimed of it.
pub assume_specification<T>[ Mutex::<T>::new ](t: T) -> (mutex: Mutex<T>)
;

/// `Mutex::lock`: waits for the mutex and hands out its guard, or the
/// poison error that holds the guard where an earlier holder panicked.
/// Nothing is claimed of either. It does not return while the calling
/// thread holds the guard itself: the handles never call it then.
pub assume_specification<'a, T: ?Sized>[ Mutex::<T>::lock ](mutex: &'a Mutex<T>) -> (outcome:
    LockResult<MutexGuard<'a, T>>)
;

/// `PoisonError::into_inner`: the guard that a poison error holds. Nothing
/// is claimed of it.
pub assume_specification<T>[ PoisonError::<T>::into_inner ](error: PoisonError<T>) -> (guard: T)
;

/// `DerefMut::deref_mut` of a `MutexGuard`: the value that the mutex
/// guards. Nothing is claimed of it but its type.
#[verifier::external_body]
pub(crate) fn guarded<'g, 'a, T>(guard: &'g mut MutexGuard<'a, T>) -> (value: &'g mut T) {
    std::ops::DerefMut::deref_mut(guard)
}

/// `RefCell::new`: a cell around `value`. Nothing is claimed of it.
pub assume_specification<T>[ RefCell::<T>::new ](value: T) -> (cell: RefCell<T>)
;

/// `RefCell::try_borrow`: a shared borrow of what the cell holds, or an
/// error where it is mutably borrowed. Nothing is claimed of either.
pub assume_specification<'a, T: ?Sized>[ RefCell::<T>::try_borrow ](cell: &'a RefCell<T>) -> (outcome:
    Result<Ref<'a, T>, BorrowError>)
;

/// `RefCell::try_borrow_mut`: a mutable borrow of what the cell holds, or
/// an error where it is borrowed. Nothing is claimed of either.
pub assume_specification<'a, T: ?Sized>[ RefCell::<T>::try_borrow_mut ](
    cell: &'a RefCell<T>,
) -> (outcome: Result<RefMut<'a, T>, BorrowMutError>)
;

/// `Deref::deref` of a `Ref`: the value that the cell holds. Nothing is
/// claimed of it but its type.
#[verifier::external_body]
pub(crate) fn borrowed<'g, 'a, T>(borrow: &'g Ref<'a, T>) -> (value: &'g T) {
    std::ops::Deref::deref(borrow)
}

/// `DerefMut::deref_mut` of a `RefMut`: the value that the cell holds.
/// Nothing is claimed of it but its type.
#[verifier::external_body]
pub(crate) fn borrowed_mut<'g, 'a, T>(borrow: &'g mut RefMut<'a, T>) -> (value: &'g mut T) {
    std::ops::DerefMut::deref_mut(borrow)
}

/// `Cell::new`: a cell around `value`. Nothing is claimed of it.
pub assume_specification<T>[ Cell::<T>::new ](value: T) -> (cell: Cell<T>)
;

/// `Cell::get`: a copy of what the cell holds. Nothing is claimed of it.
pub assume_specification<T: Copy>[ Cell::<T>::get ](cell: &Cell<T>) -> (value: T)
;

/// `Cell::set`: puts `value` into the cell.
pub assume_specification<T>[ Cell::<T>::set ](cell: &Cell<T>, value: T)
;

} // verus!
