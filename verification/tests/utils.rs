use port_registry::status::{get_status, get_uptime};
use port_registry::utils::{
    log_directory, log_file_for, log_file_path, todays_log_file, Config,
};
use std::time::{Duration, Instant};

#[test]
fn blank_log_directory_falls_back_to_default() {
    assert_eq!(log_directory(""), "./logs");
    assert_eq!(log_directory("   "), "./logs");
    assert_eq!(log_directory(" \t\r\n"), "./logs");
    assert_eq!(log_directory("\u{a0}\u{2003}\u{3000}"), "./logs");
}

#[test]
fn configured_log_directory_is_kept_as_written() {
    assert_eq!(log_directory("/var/log/pm"), "/var/log/pm");
    assert_eq!(log_directory(" logs "), " logs ");
    assert_eq!(log_directory("."), ".");
    assert_eq!(log_directory("\u{200b}"), "\u{200b}");
}

#[test]
fn log_file_path_joins_directory_name_and_date() {
    assert_eq!(log_file_path("./logs", "port_manager", "05_03_2024"), "./logs/port_manager_05_03_2024.log");
    assert_eq!(log_file_path("", "", ""), "/_.log");
}

#[test]
fn todays_log_file_carries_a_written_out_date() {
    let path = todays_log_file("  ", "pm").expect("the local date can be written out");
    assert!(path.starts_with("./logs/pm_"));
    assert!(path.ends_with(".log"));
    let date = &path["./logs/pm_".len()..path.len() - ".log".len()];
    let parts: Vec<&str> = date.split('_').collect();
    assert_eq!(parts.len(), 3);
    assert_eq!(parts[0].len(), 2);
    assert_eq!(parts[1].len(), 2);
    assert!(parts[2].len() >= 4);
    assert!(parts.iter().all(|p| p.chars().all(|c| c.is_ascii_digit())));
    let day: u32 = parts[0].parse().unwrap();
    let month: u32 = parts[1].parse().unwrap();
    assert!((1..=31).contains(&day));
    assert!((1..=12).contains(&month));
}

#[test]
fn todays_log_file_uses_the_configured_directory() {
    let path = todays_log_file("/tmp/pm-logs", "svc").unwrap();
    assert!(path.starts_with("/tmp/pm-logs/svc_"));
    assert!(path.ends_with(".log"));
}

#[test]
fn uptime_counts_whole_seconds_since_start() {
    let now = Instant::now();
    assert!(get_uptime(now) <= 1);
    if let Some(earlier) = now.checked_sub(Duration::from_millis(5_500)) {
        let uptime = get_uptime(earlier);
        assert!((5..=7).contains(&uptime));
    }
}

#[test]
fn uptime_of_a_start_in_the_future_is_zero() {
    let later = Instant::now() + Duration::from_secs(3600);
    assert_eq!(get_uptime(later), 0);
}

#[test]
fn config_clone_keeps_every_setting() {
    let config = Config {
        ip: "127.0.0.1".to_string(),
        static_port: Some(9000),
        name_for_port_manager: "port_manager".to_string(),
        logs_dir: "".to_string(),
        workers_count: 4,
    };
    assert_eq!(config.clone(), config);
}

#[test]
fn blankness_follows_the_white_space_property_of_every_character() {
    for code in 0..=0x10FFFFu32 {
        if let Some(c) = char::from_u32(code) {
            let text = c.to_string();
            let falls_back = log_directory(&text) == "./logs";
            assert_eq!(falls_back, c.is_whitespace(), "character U+{:04X}", code);
        }
    }
}

#[test]
fn one_visible_character_makes_a_directory_name() {
    assert_eq!(log_directory("  x  "), "  x  ");
    assert_eq!(log_directory("\t\n/"), "\t\n/");
    assert_eq!(log_directory("x\u{3000}"), "x\u{3000}");
}

#[test]
fn status_report_carries_the_samples_it_was_given() {
    let report = get_status(Instant::now(), 12, 34, 56);
    assert_eq!(report.cpu, 12);
    assert_eq!(report.ram, 34);
    assert_eq!(report.disk, 56);
    assert!(report.uptime <= 1);
    let full = get_status(Instant::now() + Duration::from_secs(60), 100, 0, u64::MAX);
    assert_eq!((full.uptime, full.cpu, full.ram, full.disk), (0, 100, 0, u64::MAX));
}

#[test]
fn log_file_exists_exactly_where_a_date_does() {
    assert_eq!(
        log_file_for("", "pm", Some("05_03_2024".to_string())),
        Some("./logs/pm_05_03_2024.log".to_string())
    );
    assert_eq!(
        log_file_for("/var/log", "svc", Some("31_12_1999".to_string())),
        Some("/var/log/svc_31_12_1999.log".to_string())
    );
    assert_eq!(log_file_for(" \t", "", Some(String::new())), Some("./logs/_.log".to_string()));
    assert_eq!(log_file_for("", "pm", None), None);
    assert_eq!(log_file_for("/var/log", "svc", None), None);
}
