//! An authenticated or guest identity, with its login state and the place
//! that receives a configuration saved on its behalf.

use vstd::prelude::*;
use crate::config::Config;

verus! {

/// One identity known to the registry. For guests the id is the originating
/// network address; for authenticated users an account identifier.
#[derive(Debug)]
pub struct User {
    pub id: String,
    pub is_logged: bool,
    /// The configuration most recently saved for this user, if any.
    pub saved_config: Option<Config>,
}

impl User {
    /// Marks the user logged out. Identity and saved configuration are kept.
    pub fn logout(&mut self)
        ensures
            final(self).id == old(self).id,
            !final(self).is_logged,
            final(self).saved_config == old(self).saved_config,
    {
        self.is_logged = false;
    }

    /// Accepts a configuration saved on this user's behalf; it replaces any
    /// earlier one. Identity and login state are untouched.
    pub fn save_config(&mut self, config: &Config)
        ensures
            final(self).id == old(self).id,
            final(self).is_logged == old(self).is_logged,
            final(self).saved_config == Some(*config),
    {
        self.saved_config = Some(config.clone());
    }
}

} // verus!
