//! The decisions about the lifetime of engine objects: what is done with an object the
//! engine has just made, when a new reference takes part in the reference count, and when
//! dropping a reference frees the object. The engine keeps the counts; these functions
//! decide from what it reports.

use vstd::prelude::*;

verus! {

/// Something done to an engine object.
#[derive(Clone, Copy, Debug, PartialEq, Eq, Structural)]
pub enum ObjectAction {
    /// Initialize the reference count of a fresh reference-counted object.
    InitRefCount,
    /// Increase the reference count.
    AddRef,
    /// Decrease the reference count, and free the object if it was the last reference.
    Release,
    /// Free the object.
    Free,
    /// Hand the object out as a reference of the wanted type.
    Keep,
}

/// What is done with a fresh object that the engine made for a wanted type, from whether the
/// wanted type is reference-counted, whether the object is reference-counted (a
/// `Reference`), and whether it is of the wanted class. The object is handed out only when
/// its memory management is the wanted one and it is of the wanted class; a fresh
/// reference-counted object first gets its count initialized, and an object that is not
/// handed out is released or freed, as its memory management asks.
pub fn adopt_actions(want_ref_counted: bool, is_reference: bool, is_class: bool) -> (r: Vec<
    ObjectAction,
>)
    ensures
        is_reference ==> r@.len() == 2 && r@[0] == ObjectAction::InitRefCount && r@[1] == (if want_ref_counted
            && is_class {
            ObjectAction::Keep
        } else {
            ObjectAction::Release
        }),
        !is_reference ==> r@.len() == 1 && r@[0] == (if !want_ref_counted && is_class {
            ObjectAction::Keep
        } else {
            ObjectAction::Free
        }),
        (r@.last() == ObjectAction::Keep) <==> (want_ref_counted == is_reference && is_class),
{
    let mut actions: Vec<ObjectAction> = Vec::new();
    if is_reference {
        actions.push(ObjectAction::InitRefCount);
        if want_ref_counted && is_class {
            actions.push(ObjectAction::Keep);
        } else {
            actions.push(ObjectAction::Release);
        }
    } else if !want_ref_counted && is_class {
        actions.push(ObjectAction::Keep);
    } else {
        actions.push(ObjectAction::Free);
    }
    actions
}

/// What a new reference to an object does to its reference count: a reference-counted
/// object gets its count initialized when it is fresh and increased otherwise; a manually
/// managed object is not counted.
pub fn new_reference_action(ref_counted: bool, fresh: bool) -> (r: Option<ObjectAction>)
    ensures
        !ref_counted ==> r is None,
        ref_counted && fresh ==> r == Some(ObjectAction::InitRefCount),
        ref_counted && !fresh ==> r == Some(ObjectAction::AddRef),
{
    if !ref_counted {
        None
    } else if fresh {
        Some(ObjectAction::InitRefCount)
    } else {
        Some(ObjectAction::AddRef)
    }
}

/// What dropping a reference does: nothing for a manually managed object; for a
/// reference-counted one, the count is decreased, which frees the object exactly when the
/// engine answers that this was the last reference.
pub fn drop_action(ref_counted: bool) -> (r: Option<ObjectAction>)
    ensures
        ref_counted ==> r == Some(ObjectAction::Release),
        !ref_counted ==> r is None,
{
    if ref_counted {
        Some(ObjectAction::Release)
    } else {
        None
    }
}

} // verus!
