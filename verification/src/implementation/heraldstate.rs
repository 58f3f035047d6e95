//! Whether the local configuration exists.
use vstd::prelude::*;

verus! {

/// The property signals of the application state.
#[derive(Clone, Copy, Debug, PartialEq, Eq)]
pub enum HeraldStateSignal {
    ConfigInitChanged,
}

/// Whether the local user's configuration has been set up.
pub struct HeraldState {
    pub config_init: bool,
    pub signals: Vec<HeraldStateSignal>,
}

impl HeraldState {
    /// The state, given whether a configuration is stored already
    /// (`config_exists`; when it is not, storage is set up first).
    pub fn new(config_exists: bool) -> (s: HeraldState)
        ensures
            s.config_init == config_exists,
            s.signals@.len() == 0,
    {
        HeraldState { config_init: config_exists, signals: Vec::new() }
    }

    /// Whether the configuration is set up.
    pub fn config_init(&self) -> (b: bool)
        ensures
            b == self.config_init,
    {
        self.config_init
    }

    /// Records that the configuration was set up: once set, it stays set. The
    /// view hears of it either way.
    pub fn set_config_init(&mut self, val: bool)
        ensures
            final(self).config_init == (old(self).config_init || val),
            final(self).signals@ == old(self).signals@.push(HeraldStateSignal::ConfigInitChanged),
    {
        self.config_init = self.config_init || val;
        self.signals.push(HeraldStateSignal::ConfigInitChanged);
    }
}

} // verus!
