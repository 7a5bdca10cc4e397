//! The settings the dispatcher consults. The store that persists them is
//! outside this library: it hands over the stored byte, and the library only
//! reads it.

use vstd::prelude::*;

verus! {

/// The value of the stored byte that permits blind signing. Every other
/// value forbids it.
pub const BLIND_SIGNING_ENABLED: u8 = 1;

/// A read-only snapshot of the settings store.
#[derive(Clone, Copy, Debug, PartialEq, Eq)]
pub struct Settings {
    value: u8,
}

impl Settings {
    /// The byte as stored.
    pub closed spec fn value(self) -> u8 {
        self.value
    }

    /// Whether the snapshot permits signing a hash that the user has not
    /// been shown.
    pub open spec fn blind_signing_enabled(self) -> bool {
        self.value() == BLIND_SIGNING_ENABLED
    }

    /// A snapshot that holds `value`.
    pub fn new(value: u8) -> (settings: Settings)
        ensures
            settings.value() == value,
    {
        Settings { value }
    }

    /// The byte as stored.
    pub fn get(&self) -> (value: u8)
        ensures
            value == self.value(),
    {
        self.value
    }

    /// Executable form of [`Settings::blind_signing_enabled`].
    pub fn permits_blind_signing(&self) -> (permitted: bool)
        ensures
            permitted == self.blind_signing_enabled(),
    {
        self.value == BLIND_SIGNING_ENABLED
    }
}

impl Default for Settings {
    /// The settings of a device on which nothing was ever enabled: blind
    /// signing is forbidden.
    fn default() -> (settings: Settings)
        ensures
            settings.value() == 0,
            !settings.blind_signing_enabled(),
    {
        Settings { value: 0 }
    }
}

} // verus!
