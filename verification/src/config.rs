//! User-controlled sampling configuration.
//!
//! The configuration is an immutable snapshot per sampling cycle: the
//! orchestrator reads it, and the presentation layer mutates it only through
//! the setter below (persistence itself is owned by an external store).

use vstd::prelude::*;

verus! {

/// Configuration read by the sampling orchestrator.
pub struct SysInfoConfig {
    /// If present, only interfaces named here are kept in the catalog.
    pub include_interfaces: Option<Vec<String>>,
    /// If present, interfaces named here are dropped from the catalog.
    /// Exclusion wins over inclusion when a name appears in both lists.
    pub exclude_interfaces: Option<Vec<String>>,
    /// Whether swap usage counts toward the RAM percentage.
    pub include_swap_in_ram: bool,
}

impl SysInfoConfig {
    /// The configuration used when the store has nothing persisted.
    pub open spec fn default_spec() -> SysInfoConfig {
        SysInfoConfig {
            include_interfaces: None,
            exclude_interfaces: None,
            include_swap_in_ram: false,
        }
    }

    /// Resolve the configuration handed over by the external store: a load
    /// that produced nothing falls back to the default.
    pub fn config(loaded: Option<SysInfoConfig>) -> (r: SysInfoConfig)
        ensures
            r == match loaded {
                Some(c) => c,
                None => SysInfoConfig::default_spec(),
            },
    {
        match loaded {
            Some(c) => c,
            None => Self::default(),
        }
    }

    /// Toggle whether swap counts toward the RAM percentage.  The new value
    /// takes effect immediately; no other setting is touched.
    pub fn set_include_swap_in_ram(&mut self, value: bool)
        ensures
            final(self).include_swap_in_ram == value,
            final(self).include_interfaces == old(self).include_interfaces,
            final(self).exclude_interfaces == old(self).exclude_interfaces,
    {
        self.include_swap_in_ram = value;
    }
}

impl core::default::Default for SysInfoConfig {
    fn default() -> (r: Self)
        ensures
            r == SysInfoConfig::default_spec(),
    {
        SysInfoConfig {
            include_interfaces: None,
            exclude_interfaces: None,
            include_swap_in_ram: false,
        }
    }
}

} // verus!
