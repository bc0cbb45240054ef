use nviwatch::utils::formatting::{decimal_string, format_memory_size};

const GB: u64 = 1024 * 1024 * 1024;

fn binary64_text(bytes: u64) -> String {
    format!("{:.2}GB", bytes as f64 / GB as f64)
}

#[test]
fn test_format_memory_size_small() {
    assert_eq!(format_memory_size(1024 * 1024), "1MB");
    assert_eq!(format_memory_size(2 * 1024 * 1024), "2MB");
    assert_eq!(format_memory_size(512 * 1024 * 1024), "512MB");
    assert_eq!(format_memory_size(8 * 1024 * 1024 * 1024), "8192MB");
}

#[test]
fn test_format_memory_size_large() {
    assert_eq!(format_memory_size(10 * 1024 * 1024 * 1024), "10.00GB");
    assert_eq!(format_memory_size(12 * 1024 * 1024 * 1024), "12.00GB");
    assert_eq!(format_memory_size(16 * 1024 * 1024 * 1024), "16.00GB");
    assert_eq!(format_memory_size(24 * 1024 * 1024 * 1024), "24.00GB");
}

#[test]
fn test_format_memory_size_edge_cases() {
    assert_eq!(format_memory_size(0), "0MB");
    assert_eq!(format_memory_size(1024 * 1024 - 1), "0MB");
    assert_eq!(format_memory_size(1024 * 1024), "1MB");
    assert_eq!(format_memory_size(10 * 1024 * 1024 * 1024 - 1), "10239MB");
    assert_eq!(format_memory_size(10 * 1024 * 1024 * 1024), "10.00GB");
}

#[test]
fn test_format_memory_size_decimal_precision() {
    let bytes_10_5_gb = (10.5 * 1024.0 * 1024.0 * 1024.0) as u64;
    assert_eq!(format_memory_size(bytes_10_5_gb), "10.50GB");

    let bytes_11_25_gb = (11.25 * 1024.0 * 1024.0 * 1024.0) as u64;
    assert_eq!(format_memory_size(bytes_11_25_gb), "11.25GB");
}

#[test]
fn halfway_hundredths_go_to_the_even_neighbour() {
    // 81/8 GiB is 10.125, 83/8 GiB is 10.375: both lie halfway.
    assert_eq!(format_memory_size(81 * GB / 8), "10.12GB");
    assert_eq!(format_memory_size(83 * GB / 8), "10.38GB");
    assert_eq!(format_memory_size(81 * GB / 8 + 1), "10.13GB");
    assert_eq!(format_memory_size(83 * GB / 8 - 1), "10.37GB");
}

#[test]
fn hundredths_can_carry_into_the_whole_part() {
    assert_eq!(format_memory_size(11 * GB - 1), "11.00GB");
    assert_eq!(format_memory_size(100 * GB - 1), "100.00GB");
    assert_eq!(format_memory_size(10 * GB + GB / 200 - 1), "10.00GB");
    assert_eq!(format_memory_size(10 * GB + GB / 200 + 1), "10.01GB");
}

#[test]
fn largest_sizes() {
    assert_eq!(format_memory_size(u64::MAX), "17179869184.00GB");
    assert_eq!(format_memory_size(1 << 63), "8589934592.00GB");
    assert_eq!(format_memory_size(1 << 53), "8388608.00GB");
}

#[test]
fn gigabyte_text_is_that_of_binary64_division() {
    let mut samples: Vec<u64> = vec![
        10 * GB,
        10 * GB + 1,
        u64::MAX,
        u64::MAX - 1,
        u64::MAX - 1024,
        u64::MAX - 1025,
        (1 << 53) - 1,
        1 << 53,
        (1 << 53) + 1,
        (1 << 53) + 2,
        (1 << 53) + 3,
        (1 << 54) + 2,
        (1 << 54) + 6,
        (1 << 63) + 1024,
        (1 << 63) + 3072,
        (1 << 63) + 1025,
    ];
    // Sizes around every halfway point between two hundredths, where the
    // 53-bit rounding decides which side the quotient falls on.
    for shift in 53..64u32 {
        let base: u64 = 1 << shift;
        let unit: u64 = 1 << (shift - 52);
        for k in [0u64, 1, 7, 100, 12345, 999_999] {
            let at = base + k * (GB / 200) * (unit.max(1));
            for delta in 0..(4 * unit) {
                samples.push(at.wrapping_add(delta));
                samples.push(at.wrapping_sub(delta));
            }
        }
    }
    let mut state: u64 = 0x9e37_79b9_7f4a_7c15;
    for _ in 0..20_000 {
        state ^= state << 13;
        state ^= state >> 7;
        state ^= state << 17;
        samples.push(state);
        samples.push(10 * GB + state % (1 << 40));
        samples.push((1 << 53) + state % (1 << 20));
        // an odd multiple of 2^27 bytes lies halfway between two hundredths
        samples.push((2 * (state % (1 << 20)) + 81) << 27);
    }
    for bytes in samples {
        if bytes >= 10 * GB {
            assert_eq!(format_memory_size(bytes), binary64_text(bytes), "for {} bytes", bytes);
        }
    }
}

#[test]
fn megabyte_text_is_the_whole_quotient() {
    for bytes in [0u64, 1, 1048575, 1048576, 1048577, 5 * GB + 7, 10 * GB - 1] {
        assert_eq!(format_memory_size(bytes), format!("{}MB", bytes / (1024 * 1024)));
    }
}

#[test]
fn decimal_notation() {
    assert_eq!(decimal_string(0), "0");
    assert_eq!(decimal_string(7), "7");
    assert_eq!(decimal_string(10), "10");
    assert_eq!(decimal_string(1234567890), "1234567890");
    assert_eq!(decimal_string(u64::MAX), "18446744073709551615");
    for n in [9u64, 99, 100, 101, 1 << 32, u64::MAX - 1] {
        assert_eq!(decimal_string(n), n.to_string());
    }
}
