//! Interface catalog: filtering the operating system's network-device
//! listing down to the physical interfaces the user wants tracked.
//!
//! The filesystem enumeration itself (listing the network-device namespace
//! and probing each entry's backing-device marker) is input/output and stays
//! outside the library; it hands in one [`InterfaceEntry`] per device.  The
//! classification and filtering performed here is pure and fully verified.

use vstd::prelude::*;

use crate::config::SysInfoConfig;

verus! {

/// One entry of the operating system's network-device listing.
pub struct InterfaceEntry {
    /// The device name, e.g. `enp5s0`.
    pub name: String,
    /// Whether the entry exposes a backing-device descriptor, which marks a
    /// real NIC as opposed to a virtual, loopback or bridge device.
    pub has_device: bool,
}

/// Whether `name` occurs in `list`.
pub open spec fn name_listed(list: Seq<String>, name: Seq<char>) -> bool {
    exists|i: int| 0 <= i < list.len() && list[i]@ == name
}

/// Whether the filter configuration keeps an interface called `name`:
/// it must be listed by `include_interfaces` (when that list is present)
/// and must not be listed by `exclude_interfaces` (when that list is
/// present).  An interface listed by both is dropped: exclusion wins.
pub open spec fn name_selected(cfg: SysInfoConfig, name: Seq<char>) -> bool {
    &&& (cfg.include_interfaces matches Some(inc) ==> name_listed(inc@, name))
    &&& (cfg.exclude_interfaces matches Some(exc) ==> !name_listed(exc@, name))
}

/// Whether a listing entry survives discovery: it must be physical and pass
/// the include/exclude filter.
pub open spec fn keeps_entry(cfg: SysInfoConfig, e: InterfaceEntry) -> bool {
    e.has_device && name_selected(cfg, e.name@)
}

/// The catalog produced from a device listing: the names of the kept
/// entries, in listing order.
pub open spec fn discover_names(entries: Seq<InterfaceEntry>, cfg: SysInfoConfig) -> Seq<
    Seq<char>,
>
    decreases entries.len(),
{
    if entries.len() == 0 {
        Seq::empty()
    } else {
        let rest = discover_names(entries.drop_last(), cfg);
        if keeps_entry(cfg, entries.last()) {
            rest.push(entries.last().name@)
        } else {
            rest
        }
    }
}

/// Whether `name` occurs in `list`, executably.
pub fn names_contain(list: &Vec<String>, name: &String) -> (r: bool)
    ensures
        r == name_listed(list@, name@),
{
    let mut i: usize = 0;
    while i < list.len()
        invariant
            i <= list@.len(),
            forall|j: int| 0 <= j < i ==> list@[j]@ != name@,
        decreases list@.len() - i,
    {
        if list[i].eq(name) {
            return true;
        }
        i += 1;
    }
    false
}

/// Whether the filter configuration keeps an interface called `name`,
/// executably.
pub fn interface_selected(config: &SysInfoConfig, name: &String) -> (r: bool)
    ensures
        r == name_selected(*config, name@),
{
    if let Some(inc) = &config.include_interfaces {
        if !names_contain(inc, name) {
            return false;
        }
    }
    if let Some(exc) = &config.exclude_interfaces {
        if names_contain(exc, name) {
            return false;
        }
    }
    true
}

/// Build the interface catalog from a device listing: keep the physical
/// entries that pass the include/exclude filter, in listing order.  An empty
/// listing (the enumeration failed or found nothing) yields an empty
/// catalog, never an error.
pub fn get_physical_interfaces(entries: &Vec<InterfaceEntry>, config: &SysInfoConfig) -> (r: Vec<
    String,
>)
    ensures
        r@.map_values(|s: String| s@) == discover_names(entries@, *config),
{
    let mut out: Vec<String> = Vec::new();
    let mut i: usize = 0;
    while i < entries.len()
        invariant
            i <= entries@.len(),
            out@.map_values(|s: String| s@) == discover_names(entries@.take(i as int), *config),
        decreases entries@.len() - i,
    {
        let e = &entries[i];
        let ghost prev_out = out@;
        if e.has_device && interface_selected(config, &e.name) {
            out.push(e.name.clone());
        }
        i += 1;
        proof {
            let taken = entries@.take(i as int);
            assert(taken.drop_last() =~= entries@.take(i as int - 1));
            assert(taken.last() == entries@[i as int - 1]);
            assert(out@.map_values(|s: String| s@) =~= discover_names(taken, *config));
        }
    }
    proof {
        assert(entries@.take(entries@.len() as int) =~= entries@);
    }
    out
}

/// Exclusion precedence: whenever the include and exclude lists overlap on
/// a name, that name never appears in the discovered catalog, whatever the
/// device listing holds.
pub proof fn lemma_exclude_precedence(
    entries: Seq<InterfaceEntry>,
    cfg: SysInfoConfig,
    name: Seq<char>,
)
    requires
        cfg.include_interfaces matches Some(inc) && name_listed(inc@, name),
        cfg.exclude_interfaces matches Some(exc) && name_listed(exc@, name),
    ensures
        !discover_names(entries, cfg).contains(name),
    decreases entries.len(),
{
    if entries.len() == 0 {
    } else {
        lemma_exclude_precedence(entries.drop_last(), cfg, name);
        let rest = discover_names(entries.drop_last(), cfg);
        let e = entries.last();
        if keeps_entry(cfg, e) {
            assert(e.name@ != name);
            assert forall|i: int| 0 <= i < rest.push(e.name@).len() implies rest.push(e.name@)[i]
                != name by {
                if i < rest.len() {
                    assert(!rest.contains(name));
                }
            }
        }
    }
}

/// Rebuild idempotence: discovery is a pure function of the device listing
/// and the filter configuration, so two rebuilds over the same listing (no
/// topology change in between) yield identical ordered catalogs.
pub proof fn lemma_discover_idempotent(
    e1: Seq<InterfaceEntry>,
    e2: Seq<InterfaceEntry>,
    cfg: SysInfoConfig,
)
    requires
        e1 =~= e2,
    ensures
        discover_names(e1, cfg) == discover_names(e2, cfg),
{
}

} // verus!
