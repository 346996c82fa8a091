use sysmon_core::config::SysInfoConfig;
use sysmon_core::interfaces::{get_physical_interfaces, InterfaceEntry};
use sysmon_core::metrics::{
    network_rate, ram_usage_pct, sum_interface_deltas, vram_mb, NetCounters,
};
use sysmon_core::thermal::{is_cpu_sensor, select_cpu_sensor};
use sysmon_core::ups::parse_ups_temp;

fn entry(name: &str, has_device: bool) -> InterfaceEntry {
    InterfaceEntry {
        name: String::from(name),
        has_device,
    }
}

fn names(list: &[&str]) -> Option<Vec<String>> {
    Some(list.iter().map(|s| String::from(*s)).collect())
}

fn open_config() -> SysInfoConfig {
    SysInfoConfig {
        include_interfaces: None,
        exclude_interfaces: None,
        include_swap_in_ram: false,
    }
}

#[test]
fn config_falls_back_to_default() {
    let c = SysInfoConfig::config(None);
    assert!(c.include_interfaces.is_none());
    assert!(c.exclude_interfaces.is_none());
    assert!(!c.include_swap_in_ram);
}

#[test]
fn config_keeps_loaded_value() {
    let loaded = SysInfoConfig {
        include_interfaces: names(&["eth0"]),
        exclude_interfaces: None,
        include_swap_in_ram: true,
    };
    let c = SysInfoConfig::config(Some(loaded));
    assert_eq!(c.include_interfaces, names(&["eth0"]));
    assert!(c.include_swap_in_ram);
}

#[test]
fn setter_changes_only_the_toggle() {
    let mut c = SysInfoConfig {
        include_interfaces: names(&["eth0"]),
        exclude_interfaces: names(&["wlan0"]),
        include_swap_in_ram: false,
    };
    c.set_include_swap_in_ram(true);
    assert!(c.include_swap_in_ram);
    assert_eq!(c.include_interfaces, names(&["eth0"]));
    assert_eq!(c.exclude_interfaces, names(&["wlan0"]));
    c.set_include_swap_in_ram(false);
    assert!(!c.include_swap_in_ram);
}

#[test]
fn discovery_drops_virtual_devices() {
    let entries = vec![entry("eth0", true), entry("lo", false), entry("wlan0", true)];
    let got = get_physical_interfaces(&entries, &open_config());
    assert_eq!(got, vec![String::from("eth0"), String::from("wlan0")]);
}

#[test]
fn discovery_applies_include_list() {
    let entries = vec![entry("eth0", true), entry("wlan0", true)];
    let cfg = SysInfoConfig {
        include_interfaces: names(&["wlan0"]),
        exclude_interfaces: None,
        include_swap_in_ram: false,
    };
    let got = get_physical_interfaces(&entries, &cfg);
    assert_eq!(got, vec![String::from("wlan0")]);
}

#[test]
fn exclusion_wins_over_inclusion() {
    let entries = vec![entry("eth0", true), entry("wlan0", true)];
    let cfg = SysInfoConfig {
        include_interfaces: names(&["eth0", "wlan0"]),
        exclude_interfaces: names(&["eth0"]),
        include_swap_in_ram: false,
    };
    let got = get_physical_interfaces(&entries, &cfg);
    assert_eq!(got, vec![String::from("wlan0")]);
}

#[test]
fn discovery_is_idempotent() {
    let entries = vec![entry("eth0", true), entry("lo", false), entry("wlan0", true)];
    let cfg = SysInfoConfig {
        include_interfaces: None,
        exclude_interfaces: names(&["wlan0"]),
        include_swap_in_ram: false,
    };
    let first = get_physical_interfaces(&entries, &cfg);
    let second = get_physical_interfaces(&entries, &cfg);
    assert_eq!(first, second);
    assert_eq!(first, vec![String::from("eth0")]);
}

#[test]
fn discovery_of_empty_listing_is_empty() {
    let got = get_physical_interfaces(&Vec::new(), &open_config());
    assert!(got.is_empty());
}

#[test]
fn ram_pct_is_exact_without_swap() {
    assert_eq!(ram_usage_pct(4_000, 8_000, 123, 456, false), 50);
    assert_eq!(ram_usage_pct(1, 3, 0, 0, false), 33);
}

#[test]
fn ram_pct_includes_swap_only_when_toggled() {
    // RAM alone: 1/4 = 25%; with swap: (1 + 3) / (4 + 4) = 50%.
    assert_eq!(ram_usage_pct(1_000, 4_000, 3_000, 4_000, false), 25);
    assert_eq!(ram_usage_pct(1_000, 4_000, 3_000, 4_000, true), 50);
}

#[test]
fn ram_pct_toggle_takes_effect_immediately() {
    let mut cfg = open_config();
    let before = ram_usage_pct(1_000, 4_000, 3_000, 4_000, cfg.include_swap_in_ram);
    cfg.set_include_swap_in_ram(true);
    let after = ram_usage_pct(1_000, 4_000, 3_000, 4_000, cfg.include_swap_in_ram);
    assert_eq!(before, 25);
    assert_eq!(after, 50);
}

#[test]
fn ram_pct_zero_total_is_fallback() {
    assert_eq!(ram_usage_pct(0, 0, 0, 0, false), 0);
    assert_eq!(ram_usage_pct(5, 0, 7, 0, true), 0);
}

#[test]
fn ram_pct_full_is_hundred() {
    assert_eq!(ram_usage_pct(8_000, 8_000, 0, 0, false), 100);
    assert_eq!(ram_usage_pct(8_000, 8_000, 2_000, 2_000, true), 100);
}

#[test]
fn network_rate_from_counter_deltas() {
    // Cumulative counters (tx=1_000_000, rx=2_000_000) at t0 and
    // (tx=3_000_000, rx=5_000_000) one second later: 2.0 MB/s up, 3.0 down.
    let prev = vec![NetCounters {
        name: String::from("eth0"),
        total_tx: 1_000_000,
        total_rx: 2_000_000,
    }];
    let cur = vec![NetCounters {
        name: String::from("eth0"),
        total_tx: 3_000_000,
        total_rx: 5_000_000,
    }];
    let catalog = vec![String::from("eth0")];
    let (dtx, drx) = sum_interface_deltas(&cur, &prev, &catalog);
    let upload = network_rate(dtx, 1_000);
    let download = network_rate(drx, 1_000);
    assert_eq!(upload, 2_000_000);
    assert_eq!(download, 3_000_000);
    assert_eq!(upload as f64 / 1_000_000.0, 2.0);
    assert_eq!(download as f64 / 1_000_000.0, 3.0);
}

#[test]
fn network_counter_reset_clamps_to_zero() {
    let prev = vec![NetCounters {
        name: String::from("eth0"),
        total_tx: 9_000,
        total_rx: 9_000,
    }];
    let cur = vec![NetCounters {
        name: String::from("eth0"),
        total_tx: 100,
        total_rx: 50,
    }];
    let catalog = vec![String::from("eth0")];
    assert_eq!(sum_interface_deltas(&cur, &prev, &catalog), (0, 0));
}

#[test]
fn network_sums_only_cataloged_interfaces() {
    let prev = Vec::new();
    let cur = vec![
        NetCounters {
            name: String::from("eth0"),
            total_tx: 10,
            total_rx: 20,
        },
        NetCounters {
            name: String::from("docker0"),
            total_tx: 1_000,
            total_rx: 2_000,
        },
    ];
    let catalog = vec![String::from("eth0")];
    assert_eq!(sum_interface_deltas(&cur, &prev, &catalog), (10, 20));
}

#[test]
fn network_rate_zero_window_is_fallback() {
    assert_eq!(network_rate(5_000_000, 0), 0);
}

#[test]
fn network_rate_scales_by_window() {
    // 4 MB over 2 s is 2 MB/s.
    assert_eq!(network_rate(4_000_000, 2_000), 2_000_000);
}

#[test]
fn vram_converts_bytes_to_whole_megabytes() {
    assert_eq!(vram_mb(3_221_225_472), 3_072);
    assert_eq!(vram_mb(1_048_575), 0);
    assert_eq!(vram_mb(1_048_576), 1);
}

#[test]
fn thermal_selects_tctl_first_match() {
    let labels = vec![
        String::from("Tctl"),
        String::from("Core 0"),
        String::from("acpitz"),
    ];
    assert_eq!(select_cpu_sensor(&labels), Some(0));
    assert_eq!(labels[0], "Tctl");
}

#[test]
fn thermal_selection_skips_nonmatching_prefix() {
    let labels = vec![
        String::from("acpitz"),
        String::from("nvme composite"),
        String::from("Tctl"),
    ];
    let selected = select_cpu_sensor(&labels).unwrap();
    assert_eq!(labels[selected], "Tctl");
}

#[test]
fn thermal_matches_are_case_insensitive() {
    assert!(is_cpu_sensor(&String::from("k10temp Tctl")));
    assert!(is_cpu_sensor(&String::from("CORETEMP Package id 0")));
    assert!(is_cpu_sensor(&String::from("CPU Temperature")));
    assert!(!is_cpu_sensor(&String::from("acpitz temp1")));
}

#[test]
fn thermal_no_match_is_none() {
    let labels = vec![String::from("acpitz"), String::from("nvme composite")];
    assert_eq!(select_cpu_sensor(&labels), None);
    assert_eq!(select_cpu_sensor(&Vec::new()), None);
}

#[test]
fn ups_value_is_extracted_and_trimmed() {
    let out = "battery.charge: 100\nups.temperature:  25.40  \nups.status: OL\n";
    assert_eq!(parse_ups_temp(Some(out)), "25.40");
}

#[test]
fn ups_first_matching_line_wins() {
    let out = "ups.temperature: 21\nups.temperature: 99\n";
    assert_eq!(parse_ups_temp(Some(out)), "21");
}

#[test]
fn ups_missing_key_is_sentinel() {
    let out = "battery.charge: 100\nups.status: OL\n";
    assert_eq!(parse_ups_temp(Some(out)), "N/A");
}

#[test]
fn ups_failed_command_is_sentinel() {
    assert_eq!(parse_ups_temp(None), "N/A");
}

#[test]
fn ups_empty_output_is_sentinel() {
    assert_eq!(parse_ups_temp(Some("")), "N/A");
}

#[test]
fn ups_keyed_line_without_colon_is_sentinel() {
    assert_eq!(parse_ups_temp(Some("ups.temperature 25\n")), "N/A");
}
