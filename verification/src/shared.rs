//! Sharing of reference-counted nodes.

use vstd::prelude::*;
use std::rc::Rc;

verus! {

/// The node that a handle points to.
pub open spec fn node<T>(handle: &Rc<T>) -> T {
    **handle
}

/// Returns another handle to the node that `node` points to.
///
/// This is `Rc::clone` of the standard library, which makes a new pointer to the
/// same allocation. The contract says that the node reached through the new handle
/// is the node reached through the old one.
#[verifier::external_body]
pub(crate) fn share<T>(node: &Rc<T>) -> (result: Rc<T>)
    ensures
        result == *node,
{
    Rc::clone(node)
}

} // verus!
