//! The interface every entity component provides.

use vstd::prelude::*;

verus! {

/// A component attached to an entity, which reports the identifier of its
/// kind. Views of a component as `dyn Any`, for downcasting, are provided
/// beside this trait by the application, which holds its components as
/// trait objects.
pub trait ComponentBase {
    /// The identifier of the component's kind.
    fn get_id(&self) -> u32;
}

} // verus!
