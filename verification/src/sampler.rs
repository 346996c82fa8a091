//! Sampling orchestrator: owns the long-lived monitoring handles, drives
//! one sampling cycle at a time, and folds the adapters' raw readings into
//! the published snapshot.
//!
//! The operating-system adapters (`sysinfo` for CPU/memory, thermal and
//! network counters; `nvml_wrapper` for optional GPU telemetry) are reached
//! through the narrow trusted items below.  Their readings depend on the
//! machine, so nothing is assumed about the values they hand back; every
//! derivation on those values is done by the verified functions of
//! [`crate::metrics`], [`crate::thermal`] and [`crate::ups`].
//!
//! The caller drives the cadence: once per second it calls
//! [`SysInfo::update_sysinfo_data`], and it rebuilds the interface catalog
//! through [`SysInfo::rescan_physical_interfaces`] whenever
//! [`SysInfo::needs_rescan`] says the catalog has gone stale (a coarser
//! ten-second cadence, bounding the cost of the filesystem enumeration).

use vstd::prelude::*;

use crate::config::SysInfoConfig;
use crate::interfaces::InterfaceEntry;
use crate::interfaces::discover_names;
use crate::interfaces::get_physical_interfaces;
use crate::metrics::NetCounters;
use crate::metrics::elapsed_window;
use crate::metrics::network_rate;
use crate::metrics::ram_usage_pct;
use crate::metrics::rx_delta_sum;
use crate::metrics::sum_interface_deltas;
use crate::metrics::tx_delta_sum;
use crate::metrics::vram_mb;
use crate::metrics::window_rate_spec;
use crate::thermal::select_cpu_sensor;
use crate::ups::na_seq;
use crate::ups::parse_ups_temp;
use crate::ups::ups_value;

verus! {

/// How long a built interface catalog stays fresh, in milliseconds.
pub const RESCAN_INTERVAL_MS: u64 = 10000;

#[verifier::external_type_specification]
#[verifier::external_body]
pub struct ExSystem(sysinfo::System);

#[verifier::external_type_specification]
#[verifier::external_body]
pub struct ExNetworks(sysinfo::Networks);

#[verifier::external_type_specification]
#[verifier::external_body]
pub struct ExComponents(sysinfo::Components);

#[verifier::external_type_specification]
#[verifier::external_body]
pub struct ExNetworkData(sysinfo::NetworkData);

#[verifier::external_type_specification]
#[verifier::external_body]
pub struct ExComponent(sysinfo::Component);

#[verifier::external_type_specification]
#[verifier::external_body]
pub struct ExNvml(nvml_wrapper::Nvml);

#[verifier::external_type_specification]
#[verifier::external_body]
pub struct ExDevice<'nvml>(nvml_wrapper::Device<'nvml>);

/// Relies on sysinfo's `System::new`: a fresh handle with nothing loaded.
pub assume_specification[ sysinfo::System::new ]() -> sysinfo::System;

/// Relies on sysinfo's `System::refresh_memory`: reloads the RAM and swap
/// byte counters.
pub assume_specification[ sysinfo::System::refresh_memory ](s: &mut sysinfo::System);

/// Relies on sysinfo's `System::refresh_cpu_usage`: reloads the CPU load.
pub assume_specification[ sysinfo::System::refresh_cpu_usage ](s: &mut sysinfo::System);

/// Relies on sysinfo's `System::used_memory`, in bytes; the value is
/// whatever the host reports this cycle.
pub assume_specification[ sysinfo::System::used_memory ](s: &sysinfo::System) -> u64;

/// Relies on sysinfo's `System::total_memory`, in bytes.
pub assume_specification[ sysinfo::System::total_memory ](s: &sysinfo::System) -> u64;

/// Relies on sysinfo's `System::used_swap`, in bytes.
pub assume_specification[ sysinfo::System::used_swap ](s: &sysinfo::System) -> u64;

/// Relies on sysinfo's `System::total_swap`, in bytes.
pub assume_specification[ sysinfo::System::total_swap ](s: &sysinfo::System) -> u64;

/// Relies on sysinfo's `Networks::new_with_refreshed_list`.
pub assume_specification[ sysinfo::Networks::new_with_refreshed_list ]() -> sysinfo::Networks;

/// Relies on sysinfo's `Networks::refresh`: reloads the interface list and
/// its counters.
pub assume_specification[ sysinfo::Networks::refresh ](
    n: &mut sysinfo::Networks,
    remove_not_listed_interfaces: bool,
);

/// Relies on sysinfo's `Components::new_with_refreshed_list`.
pub assume_specification[ sysinfo::Components::new_with_refreshed_list ]() -> sysinfo::Components;

/// Relies on sysinfo's `Components::refresh`: reloads the sensor list and
/// its values.
pub assume_specification[ sysinfo::Components::refresh ](
    c: &mut sysinfo::Components,
    remove_not_listed_components: bool,
);

/// Relies on sysinfo's `Networks::list`, `NetworkData::total_transmitted`
/// and `NetworkData::total_received`: one entry per known interface, with
/// its cumulative transmit/receive byte counters.  The map's iteration
/// order is process-dependent, and the counters are whatever the host
/// reports, so nothing is stated of the result.
#[verifier::external_body]
fn network_totals(networks: &sysinfo::Networks) -> (r: Vec<NetCounters>) {
    networks
        .list()
        .iter()
        .map(
            |entry: (&String, &sysinfo::NetworkData)|
                NetCounters {
                    name: entry.0.clone(),
                    total_tx: entry.1.total_transmitted(),
                    total_rx: entry.1.total_received(),
                },
        )
        .collect()
}

/// Relies on sysinfo's `Components::list` and `Component::label`: one label
/// per enumerated sensor, in enumeration order.  Which sensors exist is
/// hardware-dependent, so nothing is stated of the result.
#[verifier::external_body]
fn component_labels(components: &sysinfo::Components) -> (r: Vec<String>) {
    components.list().iter().map(|c: &sysinfo::Component| c.label().to_string()).collect()
}

/// Relies on nvml_wrapper's `Nvml::init`: a handle when an NVIDIA driver is
/// present and loadable, nothing otherwise.
#[verifier::external_body]
fn nvml_init() -> (r: Option<nvml_wrapper::Nvml>) {
    nvml_wrapper::Nvml::init().ok()
}

/// Relies on nvml_wrapper's `Nvml::device_by_index` for device index 0
/// (multi-GPU is out of scope).
#[verifier::external_body]
fn gpu_device0<'a>(nvml: &'a nvml_wrapper::Nvml) -> (r: Option<nvml_wrapper::Device<'a>>) {
    nvml.device_by_index(0).ok()
}

/// Relies on nvml_wrapper's `Device::utilization_rates`: the percentage of
/// the past sample period during which a kernel ran on the GPU.
#[verifier::external_body]
fn gpu_utilization(device: &nvml_wrapper::Device<'_>) -> (r: Option<u32>) {
    device.utilization_rates().ok().map(|u| u.gpu)
}

/// Relies on nvml_wrapper's `Device::temperature` for the die sensor, in
/// degrees Celsius.
#[verifier::external_body]
fn gpu_temperature(device: &nvml_wrapper::Device<'_>) -> (r: Option<u32>) {
    device.temperature(nvml_wrapper::enum_wrappers::device::TemperatureSensor::Gpu).ok()
}

/// Relies on nvml_wrapper's `Device::memory_info`: allocated and total
/// framebuffer memory, in bytes, as `(used, total)`.
#[verifier::external_body]
fn gpu_memory(device: &nvml_wrapper::Device<'_>) -> (r: Option<(u64, u64)>) {
    device.memory_info().ok().map(|m| (m.used, m.total))
}

/// The immutable, display-ready result of one sampling cycle.  Every field
/// has a defined fallback when its source is unavailable; the snapshot is
/// always fully constructible.  The CPU load and the selected sensor's
/// temperature are read off the live handles by the presentation layer, so
/// the snapshot carries the selected sensor's index rather than a reading.
pub struct MetricSnapshot {
    /// RAM usage percentage, in `[0, 100]` on any sane host; 0 when the
    /// host reports no memory at all.
    pub ram_usage_pct: u64,
    /// Index of the CPU-representative thermal sensor among the enumerated
    /// components, or `None` when no label matched.
    pub cpu_sensor: Option<usize>,
    /// Received bytes per second over the last sampling window, summed over
    /// the catalog's interfaces.
    pub download_bps: u64,
    /// Transmitted bytes per second over the last sampling window.
    pub upload_bps: u64,
    /// The UPS temperature as reported by the external tool, or `N/A`.
    pub ups_temp: String,
    /// GPU utilization percentage, when the GPU adapter is enabled and the
    /// probe succeeded this cycle.
    pub gpu_load_pct: Option<u32>,
    /// GPU temperature in degrees Celsius.
    pub gpu_temp_c: Option<u32>,
    /// Allocated VRAM in whole megabytes.
    pub gpu_vram_used_mb: Option<u64>,
    /// Total VRAM in whole megabytes.
    pub gpu_vram_total_mb: Option<u64>,
}

/// The sampling orchestrator: long-lived monitoring handles, the interface
/// catalog with its age, the previous cycle's counters, and the derived
/// fields of the latest cycle.
pub struct SysInfo {
    /// The configuration snapshot the orchestrator samples under.
    pub config: SysInfoConfig,
    /// CPU/memory adapter handle, refreshed in place each cycle.
    pub system: sysinfo::System,
    /// Network-counter adapter handle, refreshed in place each cycle.
    pub networks: sysinfo::Networks,
    /// Thermal adapter handle, refreshed in place each cycle.
    pub components: sysinfo::Components,
    /// GPU adapter capability: a handle when probing succeeded at startup,
    /// `None` forever after a failed probe (terminal, never retried).
    pub nvml: Option<nvml_wrapper::Nvml>,
    /// The interface catalog: physical interfaces passing the filter.
    pub physical_interfaces: Vec<String>,
    /// When the catalog was last rebuilt, in caller-clock milliseconds.
    pub last_scan_ms: u64,
    /// The previous cycle's cumulative per-interface counters.
    pub prev_net: Vec<NetCounters>,
    /// When the previous cycle ran, in caller-clock milliseconds.
    pub prev_time_ms: u64,
    /// Derived: RAM usage percentage of the latest cycle.
    pub ram_usage: u64,
    /// Derived: index of the selected CPU thermal sensor, if any.
    pub cpu_sensor: Option<usize>,
    /// Derived: transmitted bytes per second over the latest window.
    pub upload_bps: u64,
    /// Derived: received bytes per second over the latest window.
    pub download_bps: u64,
    /// Derived: the UPS temperature string, or the `N/A` sentinel.
    pub ups_temp: String,
    /// Derived: GPU utilization percentage of the latest cycle.
    pub gpu_load: Option<u32>,
    /// Derived: GPU temperature of the latest cycle.
    pub gpu_temp: Option<u32>,
    /// Derived: allocated VRAM of the latest cycle, in megabytes.
    pub gpu_vram_used: Option<u64>,
    /// Derived: total VRAM of the latest cycle, in megabytes.
    pub gpu_vram_total: Option<u64>,
}

impl SysInfo {
    /// Build the orchestrator: open the monitoring handles, probe the GPU
    /// once (a failed probe disables the GPU adapter for the process
    /// lifetime), and build the initial interface catalog from the given
    /// device listing.  Every derived field starts at its fallback.
    pub fn init(config: SysInfoConfig, entries: &Vec<InterfaceEntry>, now_ms: u64) -> (s: SysInfo)
        ensures
            s.config == config,
            s.physical_interfaces@.map_values(|n: String| n@) == discover_names(entries@, config),
            s.last_scan_ms == now_ms,
            s.prev_time_ms == now_ms,
            s.prev_net@.len() == 0,
            s.ram_usage == 0,
            s.cpu_sensor is None,
            s.upload_bps == 0,
            s.download_bps == 0,
            s.ups_temp@ == "..."@,
            s.gpu_load is None,
            s.gpu_temp is None,
            s.gpu_vram_used is None,
            s.gpu_vram_total is None,
    {
        let physical_interfaces = get_physical_interfaces(entries, &config);
        SysInfo {
            config,
            system: sysinfo::System::new(),
            networks: sysinfo::Networks::new_with_refreshed_list(),
            components: sysinfo::Components::new_with_refreshed_list(),
            nvml: nvml_init(),
            physical_interfaces,
            last_scan_ms: now_ms,
            prev_net: Vec::new(),
            prev_time_ms: now_ms,
            ram_usage: 0,
            cpu_sensor: None,
            upload_bps: 0,
            download_bps: 0,
            ups_temp: String::from_str("..."),
            gpu_load: None,
            gpu_temp: None,
            gpu_vram_used: None,
            gpu_vram_total: None,
        }
    }

    /// Whether the interface catalog has gone stale: more than the rescan
    /// interval has passed since it was last rebuilt.
    pub fn needs_rescan(&self, now_ms: u64) -> (r: bool)
        ensures
            r == (now_ms - self.last_scan_ms > RESCAN_INTERVAL_MS),
    {
        if now_ms >= self.last_scan_ms {
            now_ms - self.last_scan_ms > RESCAN_INTERVAL_MS
        } else {
            false
        }
    }

    /// Rebuild the interface catalog from a fresh device listing, fully
    /// replacing the prior catalog (no incremental mutation, so no stale
    /// entries survive), and stamp the rebuild time.  Nothing else changes.
    pub fn rescan_physical_interfaces(&mut self, entries: &Vec<InterfaceEntry>, now_ms: u64)
        ensures
            final(self).physical_interfaces@.map_values(|n: String| n@) == discover_names(
                entries@,
                old(self).config,
            ),
            final(self).last_scan_ms == now_ms,
            final(self).config == old(self).config,
            final(self).system == old(self).system,
            final(self).networks == old(self).networks,
            final(self).components == old(self).components,
            final(self).nvml == old(self).nvml,
            final(self).prev_net == old(self).prev_net,
            final(self).prev_time_ms == old(self).prev_time_ms,
            final(self).ram_usage == old(self).ram_usage,
            final(self).cpu_sensor == old(self).cpu_sensor,
            final(self).upload_bps == old(self).upload_bps,
            final(self).download_bps == old(self).download_bps,
            final(self).ups_temp == old(self).ups_temp,
            final(self).gpu_load == old(self).gpu_load,
            final(self).gpu_temp == old(self).gpu_temp,
            final(self).gpu_vram_used == old(self).gpu_vram_used,
            final(self).gpu_vram_total == old(self).gpu_vram_total,
    {
        self.physical_interfaces = get_physical_interfaces(entries, &self.config);
        self.last_scan_ms = now_ms;
    }

    /// Whether the GPU adapter is in its terminal disabled state.
    pub fn gpu_disabled(&self) -> (r: bool)
        ensures
            r == (self.nvml is None),
    {
        self.nvml.is_none()
    }

    /// Run one sampling cycle: refresh the CPU/memory, thermal and network
    /// handles, derive the RAM percentage under the current swap toggle,
    /// select the thermal sensor, convert the network counter movement over
    /// the elapsed window into per-second rates, extract the UPS
    /// temperature from the external tool's output (`None` when the tool
    /// failed), and probe the GPU if its adapter is enabled.
    ///
    /// A disabled GPU adapter stays disabled and keeps every GPU field at
    /// its fallback: no retry ever happens.  The catalog and configuration
    /// are read, never changed.
    ///
    /// Afterwards `prev_net` retains this cycle's raw counters, and both
    /// published rates are pinned to them: the clamped per-second value of
    /// the catalog-filtered deltas against the previous cycle's counters
    /// over the elapsed window.  With an empty catalog both rates are
    /// therefore zero whatever the adapter read
    /// (see [`crate::metrics::lemma_empty_catalog_zero_throughput`]).
    pub fn update_sysinfo_data(&mut self, now_ms: u64, ups_output: Option<&str>)
        ensures
            final(self).config == old(self).config,
            final(self).physical_interfaces == old(self).physical_interfaces,
            final(self).last_scan_ms == old(self).last_scan_ms,
            final(self).prev_time_ms == now_ms,
            final(self).ups_temp@ == match ups_output {
                Some(s) => ups_value(s@),
                None => na_seq(),
            },
            final(self).upload_bps == window_rate_spec(
                tx_delta_sum(
                    final(self).prev_net@,
                    old(self).prev_net@,
                    old(self).physical_interfaces@,
                ),
                elapsed_window(now_ms, old(self).prev_time_ms),
            ),
            final(self).download_bps == window_rate_spec(
                rx_delta_sum(
                    final(self).prev_net@,
                    old(self).prev_net@,
                    old(self).physical_interfaces@,
                ),
                elapsed_window(now_ms, old(self).prev_time_ms),
            ),
            final(self).nvml == old(self).nvml,
            old(self).nvml is None ==> final(self).gpu_load is None && final(self).gpu_temp is None
                && final(self).gpu_vram_used is None && final(self).gpu_vram_total is None,
            final(self).gpu_vram_used is Some <==> final(self).gpu_vram_total is Some,
    {
        self.system.refresh_memory();
        self.system.refresh_cpu_usage();
        let used_mem = self.system.used_memory();
        let total_mem = self.system.total_memory();
        let used_swap = self.system.used_swap();
        let total_swap = self.system.total_swap();
        self.ram_usage = ram_usage_pct(
            used_mem,
            total_mem,
            used_swap,
            total_swap,
            self.config.include_swap_in_ram,
        );

        self.components.refresh(true);
        let labels = component_labels(&self.components);
        self.cpu_sensor = select_cpu_sensor(&labels);

        self.networks.refresh(true);
        let cur = network_totals(&self.networks);
        let deltas = sum_interface_deltas(&cur, &self.prev_net, &self.physical_interfaces);
        let elapsed: u64 = if now_ms >= self.prev_time_ms {
            now_ms - self.prev_time_ms
        } else {
            0
        };
        self.upload_bps = network_rate(deltas.0, elapsed);
        self.download_bps = network_rate(deltas.1, elapsed);
        self.prev_net = cur;
        self.prev_time_ms = now_ms;

        self.ups_temp = parse_ups_temp(ups_output);

        match &self.nvml {
            None => {
                self.gpu_load = None;
                self.gpu_temp = None;
                self.gpu_vram_used = None;
                self.gpu_vram_total = None;
            },
            Some(nvml) => {
                match gpu_device0(nvml) {
                    Some(device) => {
                        self.gpu_load = gpu_utilization(&device);
                        self.gpu_temp = gpu_temperature(&device);
                        match gpu_memory(&device) {
                            Some(mem) => {
                                self.gpu_vram_used = Some(vram_mb(mem.0));
                                self.gpu_vram_total = Some(vram_mb(mem.1));
                            },
                            None => {
                                self.gpu_vram_used = None;
                                self.gpu_vram_total = None;
                            },
                        }
                    },
                    None => {
                        self.gpu_load = None;
                        self.gpu_temp = None;
                        self.gpu_vram_used = None;
                        self.gpu_vram_total = None;
                    },
                }
            },
        }
    }

    /// Publish the latest cycle's derived values as one immutable snapshot
    /// for the presentation layer.
    pub fn snapshot(&self) -> (r: MetricSnapshot)
        ensures
            r.ram_usage_pct == self.ram_usage,
            r.cpu_sensor == self.cpu_sensor,
            r.download_bps == self.download_bps,
            r.upload_bps == self.upload_bps,
            r.ups_temp@ == self.ups_temp@,
            r.gpu_load_pct == self.gpu_load,
            r.gpu_temp_c == self.gpu_temp,
            r.gpu_vram_used_mb == self.gpu_vram_used,
            r.gpu_vram_total_mb == self.gpu_vram_total,
    {
        MetricSnapshot {
            ram_usage_pct: self.ram_usage,
            cpu_sensor: self.cpu_sensor,
            download_bps: self.download_bps,
            upload_bps: self.upload_bps,
            ups_temp: self.ups_temp.clone(),
            gpu_load_pct: self.gpu_load,
            gpu_temp_c: self.gpu_temp,
            gpu_vram_used_mb: self.gpu_vram_used,
            gpu_vram_total_mb: self.gpu_vram_total,
        }
    }
}

} // verus!
