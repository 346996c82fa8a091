use sysmon_core::config::SysInfoConfig;
use sysmon_core::interfaces::InterfaceEntry;
use sysmon_core::sampler::SysInfo;

fn default_config() -> SysInfoConfig {
    SysInfoConfig {
        include_interfaces: None,
        exclude_interfaces: None,
        include_swap_in_ram: false,
    }
}

fn listing(names: &[&str]) -> Vec<InterfaceEntry> {
    names
        .iter()
        .map(|n| InterfaceEntry {
            name: String::from(*n),
            has_device: true,
        })
        .collect()
}

#[test]
fn init_starts_at_fallbacks() {
    let s = SysInfo::init(default_config(), &listing(&["eth0"]), 0);
    assert_eq!(s.ram_usage, 0);
    assert_eq!(s.upload_bps, 0);
    assert_eq!(s.download_bps, 0);
    assert_eq!(s.ups_temp, "...");
    assert_eq!(s.physical_interfaces, vec![String::from("eth0")]);
    assert!(s.gpu_load.is_none());
    assert!(s.gpu_temp.is_none());
    assert!(s.gpu_vram_used.is_none());
    assert!(s.gpu_vram_total.is_none());
}

#[test]
fn rescan_cadence_is_ten_seconds() {
    let s = SysInfo::init(default_config(), &Vec::new(), 0);
    assert!(!s.needs_rescan(0));
    assert!(!s.needs_rescan(10_000));
    assert!(s.needs_rescan(10_001));
}

#[test]
fn rescan_fully_replaces_the_catalog() {
    let mut s = SysInfo::init(default_config(), &listing(&["eth0", "wlan0"]), 0);
    assert_eq!(s.physical_interfaces.len(), 2);
    s.rescan_physical_interfaces(&listing(&["eth1"]), 11_000);
    assert_eq!(s.physical_interfaces, vec![String::from("eth1")]);
    assert_eq!(s.last_scan_ms, 11_000);
    s.rescan_physical_interfaces(&Vec::new(), 22_000);
    assert!(s.physical_interfaces.is_empty());
}

#[test]
fn cycle_fills_every_field_with_value_or_fallback() {
    let mut s = SysInfo::init(default_config(), &Vec::new(), 0);
    s.update_sysinfo_data(1_000, None);
    // This host reports memory, so the percentage is meaningful.
    assert!(s.ram_usage <= 100);
    assert_eq!(s.ups_temp, "N/A");
    assert_eq!(s.prev_time_ms, 1_000);
    // The catalog is empty, so the cycle reports zero network throughput
    // whatever the host's counters hold.
    assert_eq!(s.upload_bps, 0);
    assert_eq!(s.download_bps, 0);
    // VRAM used and total are filled or dropped together.
    assert_eq!(s.gpu_vram_used.is_some(), s.gpu_vram_total.is_some());
    let snap = s.snapshot();
    assert_eq!(snap.ram_usage_pct, s.ram_usage);
    assert_eq!(snap.upload_bps, s.upload_bps);
    assert_eq!(snap.download_bps, s.download_bps);
    assert_eq!(snap.ups_temp, s.ups_temp);
    assert_eq!(snap.cpu_sensor, s.cpu_sensor);
}

#[test]
fn cycle_passes_ups_output_through_the_scan() {
    let mut s = SysInfo::init(default_config(), &Vec::new(), 0);
    s.update_sysinfo_data(1_000, Some("ups.temperature: 30.1\n"));
    assert_eq!(s.ups_temp, "30.1");
    s.update_sysinfo_data(2_000, Some("battery.charge: 90\n"));
    assert_eq!(s.ups_temp, "N/A");
}

#[test]
fn disabled_gpu_stays_disabled_across_cycles() {
    let mut s = SysInfo::init(default_config(), &Vec::new(), 0);
    if s.gpu_disabled() {
        // No compatible GPU on this host: the adapter is terminally
        // disabled, every cycle keeps the fallback, and no retry happens.
        s.update_sysinfo_data(1_000, None);
        assert!(s.gpu_disabled());
        assert!(s.gpu_load.is_none());
        assert!(s.gpu_temp.is_none());
        assert!(s.gpu_vram_used.is_none());
        assert!(s.gpu_vram_total.is_none());
        s.update_sysinfo_data(2_000, None);
        assert!(s.gpu_disabled());
        assert!(s.gpu_load.is_none());
        let snap = s.snapshot();
        assert!(snap.gpu_load_pct.is_none());
        assert!(snap.gpu_vram_total_mb.is_none());
    }
}

#[test]
fn toggling_swap_feeds_the_next_cycle() {
    let mut s = SysInfo::init(default_config(), &Vec::new(), 0);
    s.update_sysinfo_data(1_000, None);
    let without_swap = s.ram_usage;
    s.config.set_include_swap_in_ram(true);
    s.update_sysinfo_data(2_000, None);
    let with_swap = s.ram_usage;
    // Both cycles derive a valid percentage; which counters fed it is
    // pinned by the verified contract, whatever this host's swap holds.
    assert!(without_swap <= 100);
    assert!(with_swap <= 100);
    assert!(s.config.include_swap_in_ram);
}
