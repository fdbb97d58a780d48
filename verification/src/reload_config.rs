use vstd::prelude::*;

verus! {

/// Flag that tells the application that its configuration has to be reloaded.
///
/// The flag is owned by the application context; every change goes through a
/// `&mut` borrow, so the state seen by a caller is the state left by the last call.
/// A clone is a flag of its own: a later change to one is not seen by the other. Parts of
/// the application that must see the same flag borrow the one in the context rather than
/// keep clones.
#[derive(Debug, Clone)]
pub struct ReloadConfig {
    flag: bool,
}

impl View for ReloadConfig {
    type V = bool;

    /// The abstract state is whether a reload has been requested.
    closed spec fn view(&self) -> bool {
        self.flag
    }
}

impl ReloadConfig {
    /// Creates a flag that is not set.
    pub fn new() -> (r: Self)
        ensures
            r@ == false,
    {
        Self { flag: false }
    }

    /// Tells whether a reload has been requested.
    pub fn is_reload_needed(&self) -> (b: bool)
        ensures
            b == self@,
    {
        self.flag
    }

    /// Requests a reload.
    pub fn set_reload_needed(&mut self)
        ensures
            final(self)@ == true,
    {
        self.flag = true;
    }

    /// Withdraws a pending reload request.
    pub fn reset_reload_flag(&mut self)
        ensures
            final(self)@ == false,
    {
        self.flag = false;
    }

    /// Sets the flag to the given value.
    pub fn set_reload_flag(&mut self, value: bool)
        ensures
            final(self)@ == value,
    {
        self.flag = value;
    }

    /// Takes the pending request: returns whether a reload was requested and clears the flag.
    pub fn check_and_reset(&mut self) -> (was_set: bool)
        ensures
            was_set == old(self)@,
            final(self)@ == false,
    {
        let was_set = self.flag;
        self.flag = false;
        was_set
    }
}

impl Default for ReloadConfig {
    fn default() -> (r: Self)
        ensures
            r@ == false,
    {
        Self::new()
    }
}

} // verus!
