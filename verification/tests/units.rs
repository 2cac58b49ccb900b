use r_top::policy::RestartPolicy;
use r_top::settings::{DaemonSettings, SearchType, UserSettings};
use r_top::theme::ThemeType;
use r_top::types::SortCategory;
use r_top::utils::{format_bytes, u64_to_decimal, CircularBuffer};

#[test]
fn decimal_rendering() {
    assert_eq!(u64_to_decimal(0), "0");
    assert_eq!(u64_to_decimal(9), "9");
    assert_eq!(u64_to_decimal(10), "10");
    assert_eq!(u64_to_decimal(1234567890), "1234567890");
    assert_eq!(u64_to_decimal(u64::MAX), "18446744073709551615");
}

#[test]
fn format_bytes_picks_units() {
    assert_eq!(format_bytes(0), "0 B");
    assert_eq!(format_bytes(512), "512 B");
    assert_eq!(format_bytes(1023), "1023 B");
    assert_eq!(format_bytes(1024), "1.00 KB");
    assert_eq!(format_bytes(1536), "1.50 KB");
    assert_eq!(format_bytes(2560), "2.50 KB");
    assert_eq!(format_bytes(1024 * 1024), "1.00 MB");
    assert_eq!(format_bytes(1024 * 1024 * 1024), "1.00 GB");
}

#[test]
fn format_bytes_rounds_to_nearest_hundredth() {
    // 1075 / 1024 = 1.0498...: rounds up to 1.05
    assert_eq!(format_bytes(1075), "1.05 KB");
    // 5.25 GB exactly
    assert_eq!(format_bytes(5 * 1024 * 1024 * 1024 + 256 * 1024 * 1024), "5.25 GB");
    // fractional part below ten hundredths is zero-padded
    assert_eq!(format_bytes(1024 * 1024 + 30 * 1024), "1.03 MB");
}

#[test]
fn circular_buffer_fills_in_order() {
    let mut buf: CircularBuffer<u64> = CircularBuffer::new(3);
    assert!(buf.is_empty());
    assert_eq!(buf.len(), 0);
    assert_eq!(buf.get(0), None);
    buf.push(1);
    buf.push(2);
    assert_eq!(buf.len(), 2);
    assert!(!buf.is_empty());
    assert_eq!(buf.get(0), Some(1));
    assert_eq!(buf.get(1), Some(2));
    assert_eq!(buf.get(2), None);
    assert_eq!(buf.to_vec(), vec![1, 2]);
    assert_eq!(buf.as_slice(), &[1, 2]);
}

#[test]
fn circular_buffer_evicts_oldest_when_full() {
    let mut buf: CircularBuffer<u64> = CircularBuffer::new(3);
    for v in 1..=5 {
        buf.push(v);
    }
    assert_eq!(buf.len(), 3);
    assert_eq!(buf.to_vec(), vec![3, 4, 5]);
    assert_eq!(buf.get(0), Some(3));
    assert_eq!(buf.get(2), Some(5));
    assert_eq!(buf.get(3), None);
    // once full, the backing storage is the same values rotated
    assert_eq!(buf.as_slice(), &[4, 5, 3]);
}

#[test]
fn format_bytes_at_the_top_of_the_range() {
    assert_eq!(format_bytes(u64::MAX), "17179869184.00 GB");
}

#[test]
fn circular_buffer_of_capacity_one_keeps_the_latest() {
    let mut buf: CircularBuffer<u64> = CircularBuffer::new(1);
    buf.push(1);
    assert_eq!(buf.to_vec(), vec![1]);
    buf.push(2);
    assert_eq!(buf.to_vec(), vec![2]);
    assert_eq!(buf.len(), 1);
}

#[test]
fn circular_buffer_holds_samples() {
    let mut buf: CircularBuffer<f32> = CircularBuffer::new(2);
    buf.push(0.5);
    buf.push(1.5);
    buf.push(2.5);
    assert_eq!(buf.to_vec(), vec![1.5, 2.5]);
}

#[test]
fn restart_policy_parsing_ignores_case() {
    assert_eq!(RestartPolicy::from_str("always"), RestartPolicy::Always);
    assert_eq!(RestartPolicy::from_str("ALWAYS"), RestartPolicy::Always);
    assert_eq!(RestartPolicy::from_str("Never"), RestartPolicy::Never);
    assert_eq!(RestartPolicy::from_str("never"), RestartPolicy::Never);
    assert_eq!(RestartPolicy::from_str("on_failure"), RestartPolicy::OnFailure);
    assert_eq!(RestartPolicy::from_str("OnFailure"), RestartPolicy::OnFailure);
    assert_eq!(RestartPolicy::from_str("onfailure"), RestartPolicy::OnFailure);
}

#[test]
fn restart_policy_parsing_defaults_to_on_failure() {
    assert_eq!(RestartPolicy::from_str(""), RestartPolicy::OnFailure);
    assert_eq!(RestartPolicy::from_str("sometimes"), RestartPolicy::OnFailure);
    assert_eq!(RestartPolicy::from_str("alwayss"), RestartPolicy::OnFailure);
}

#[test]
fn theme_cycle_returns_to_start() {
    let start = ThemeType::DarkPurple;
    let one = start.next();
    let two = one.next();
    let three = two.next();
    assert_eq!(one, ThemeType::Monotone);
    assert_eq!(two, ThemeType::HighContrast);
    assert_eq!(three, start);
}

#[test]
fn theme_display_names() {
    assert_eq!(ThemeType::DarkPurple.as_str(), "Dark Purple (Default)");
    assert_eq!(ThemeType::Monotone.as_str(), "Monotone");
    assert_eq!(ThemeType::HighContrast.as_str(), "High Contrast");
}

#[test]
fn sort_category_next_and_previous_are_inverse() {
    let all = [
        SortCategory::CpuPerCore,
        SortCategory::CpuAverage,
        SortCategory::Memory,
        SortCategory::Network,
    ];
    for c in all {
        assert_eq!(c.next().previous(), c);
        assert_eq!(c.previous().next(), c);
    }
    assert_eq!(SortCategory::CpuPerCore.next(), SortCategory::CpuAverage);
    assert_eq!(SortCategory::Network.next(), SortCategory::CpuPerCore);
}

#[test]
fn sort_category_display_names() {
    assert_eq!(SortCategory::CpuPerCore.as_str(), "CPU (per Core %)");
    assert_eq!(SortCategory::CpuAverage.as_str(), "CPU (average %)");
    assert_eq!(SortCategory::Memory.as_str(), "Memory Usage");
    assert_eq!(SortCategory::Network.as_str(), "Network Usage");
}

#[test]
fn settings_defaults() {
    let user = UserSettings::default();
    assert_eq!(user.refresh_interval_ms, 2000);
    assert_eq!(user.default_interface, "eth0");
    assert_eq!(user.default_usage_view, "cpu");
    assert_eq!(user.default_theme, "DarkPurple");
    assert!(!user.show_info_on_start);

    let daemon = DaemonSettings::default();
    assert_eq!(daemon.enabled_service, "");

    assert_ne!(SearchType::Name, SearchType::Pid);
}
