use file_encryptor::file_ops::decimal;
use file_encryptor::file_ops::get_file_size_formatted;
use file_encryptor::file_ops::get_processing_time_formatted;

fn size_in_floating_point(bytes: u64) -> String {
    let units = ["B", "KB", "MB", "GB"];
    let mut size = bytes as f64;
    let mut unit_index = 0;
    while size >= 1024.0 && unit_index < units.len() - 1 {
        size /= 1024.0;
        unit_index += 1;
    }
    if unit_index == 0 {
        format!("{} {}", size as u64, units[unit_index])
    } else {
        format!("{:.2} {}", size, units[unit_index])
    }
}

fn time_in_floating_point(milliseconds: u64) -> String {
    if milliseconds < 1000 {
        format!("{}ms", milliseconds)
    } else if milliseconds < 60000 {
        format!("{:.1}s", milliseconds as f64 / 1000.0)
    } else {
        format!("{}m {}s", milliseconds / 60000, (milliseconds % 60000) / 1000)
    }
}

#[test]
fn decimal_texts() {
    assert_eq!(decimal(0), "0");
    assert_eq!(decimal(7), "7");
    assert_eq!(decimal(10), "10");
    assert_eq!(decimal(1234567890), "1234567890");
    assert_eq!(decimal(u128::MAX), u128::MAX.to_string());
}

#[test]
fn file_sizes() {
    assert_eq!(get_file_size_formatted(0), "0 B");
    assert_eq!(get_file_size_formatted(1023), "1023 B");
    assert_eq!(get_file_size_formatted(1024), "1.00 KB");
    assert_eq!(get_file_size_formatted(1536), "1.50 KB");
    assert_eq!(get_file_size_formatted(1152), "1.12 KB");
    assert_eq!(get_file_size_formatted(1048575), "1024.00 KB");
    assert_eq!(get_file_size_formatted(1048576), "1.00 MB");
    assert_eq!(get_file_size_formatted(1073741824), "1.00 GB");
    assert_eq!(get_file_size_formatted(5 * 1073741824 + 1073741824 / 4), "5.25 GB");
    assert_eq!(get_file_size_formatted(1099511627776), "1024.00 GB");
    assert_eq!(get_file_size_formatted(u64::MAX), "17179869184.00 GB");
}

#[test]
fn file_sizes_agree_with_floating_point() {
    for bytes in 0..300_000u64 {
        assert_eq!(get_file_size_formatted(bytes), size_in_floating_point(bytes), "{}", bytes);
    }
    let mut x: u64 = 0x9E3779B97F4A7C15;
    for _ in 0..200_000 {
        x ^= x << 13;
        x ^= x >> 7;
        x ^= x << 17;
        for shift in [0u32, 3, 11, 20, 30, 34, 40] {
            let bytes = x >> shift;
            assert_eq!(get_file_size_formatted(bytes), size_in_floating_point(bytes), "{}", bytes);
        }
    }
    for k in 0..64u32 {
        for d in 0..2100u64 {
            let base = 1u64 << k;
            for bytes in [base.wrapping_add(d), base.wrapping_sub(d), u64::MAX - d] {
                assert_eq!(get_file_size_formatted(bytes), size_in_floating_point(bytes), "{}", bytes);
            }
        }
    }
    for m in 0..200_000u64 {
        let bytes = (1u64 << 30) + m * 5_368_709 + m;
        assert_eq!(get_file_size_formatted(bytes), size_in_floating_point(bytes), "{}", bytes);
    }
}

#[test]
fn processing_times() {
    assert_eq!(get_processing_time_formatted(0), "0ms");
    assert_eq!(get_processing_time_formatted(999), "999ms");
    assert_eq!(get_processing_time_formatted(1000), "1.0s");
    assert_eq!(get_processing_time_formatted(1250), "1.2s");
    assert_eq!(get_processing_time_formatted(1350), "1.4s");
    assert_eq!(get_processing_time_formatted(1750), "1.8s");
    assert_eq!(get_processing_time_formatted(1449), "1.4s");
    assert_eq!(get_processing_time_formatted(59999), "60.0s");
    assert_eq!(get_processing_time_formatted(60000), "1m 0s");
    assert_eq!(get_processing_time_formatted(61999), "1m 1s");
    assert_eq!(get_processing_time_formatted(3_600_000), "60m 0s");
}

#[test]
fn processing_times_agree_with_floating_point() {
    for ms in 0..200_000u64 {
        assert_eq!(get_processing_time_formatted(ms), time_in_floating_point(ms), "{}", ms);
    }
    assert_eq!(get_processing_time_formatted(u64::MAX), time_in_floating_point(u64::MAX));
}
