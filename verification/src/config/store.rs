//! The place where the loaded configuration is kept.

use vstd::prelude::*;
use crate::config::{Config, ConfigView};

verus! {

/// Holds the configuration of the process: empty until the first one is
/// put in, and from then on that one, unchanged.
#[derive(Debug, Clone, PartialEq, Eq)]
pub struct ConfigStore {
    slot: Option<Config>,
}

impl View for ConfigStore {
    type V = Option<ConfigView>;

    closed spec fn view(&self) -> Option<ConfigView> {
        match self.slot {
            Some(config) => Some(config@),
            None => None,
        }
    }
}

impl ConfigStore {
    /// An empty store.
    pub fn new() -> (store: ConfigStore)
        ensures
            store@ is None,
    {
        ConfigStore { slot: None }
    }

    /// True once a configuration has been put in.
    pub fn is_loaded(&self) -> (loaded: bool)
        ensures
            loaded == (self@ is Some),
    {
        self.slot.is_some()
    }

    /// Puts `config` in if the store is empty, and reports whether it did.
    /// A store that holds a configuration keeps it: the first one stays.
    pub fn install(&mut self, config: Config) -> (installed: bool)
        ensures
            installed == (old(self)@ is None),
            final(self)@ == (if old(self)@ is None {
                Some(config@)
            } else {
                old(self)@
            }),
    {
        if self.slot.is_none() {
            self.slot = Some(config);
            true
        } else {
            false
        }
    }

    /// The configuration, once there is one.
    pub fn get(&self) -> (config: Option<&Config>)
        ensures
            match config {
                Some(config) => self@ == Some(config@),
                None => self@ is None,
            },
    {
        self.slot.as_ref()
    }
}

} // verus!
