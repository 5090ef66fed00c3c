//! Administrative requests outside the messaging protocol proper.

use vstd::prelude::*;

use crate::common::{Did, Homeserver};

verus! {

/// Registers a user with a homeserver.
#[derive(Eq, PartialEq, Ord, PartialOrd, Clone, Hash, Debug)]
pub struct AddUser {
    pub did: Did,
}

/// Records which homeserver serves a user.
#[derive(Eq, PartialEq, Ord, PartialOrd, Clone, Hash, Debug)]
pub struct AddHomeServerMapping {
    pub did: Did,
    pub homeserver: Homeserver,
}

} // verus!
