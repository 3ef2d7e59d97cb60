use udp_throughput::report::{throughput, Rate};

#[test]
fn one_mib_in_one_second() {
    assert_eq!(throughput(1048576, 1, 0), Rate { whole: 1, hundredths: 0 });
}

#[test]
fn rate_is_rounded_to_hundredths() {
    // 10000 bytes in 1 ms is 9.5367... MB/s
    assert_eq!(throughput(10000, 0, 1_000_000), Rate { whole: 9, hundredths: 54 });
    // 1.5 MiB in 2 s is 0.75 MB/s
    assert_eq!(throughput(1572864, 2, 0), Rate { whole: 0, hundredths: 75 });
}

#[test]
fn zero_elapsed_gives_finite_rate() {
    assert_eq!(throughput(1048576, 0, 0), Rate { whole: 1_000_000_000, hundredths: 0 });
    assert_eq!(throughput(0, 0, 0), Rate { whole: 0, hundredths: 0 });
}

#[test]
fn empty_transfer_rate_is_zero() {
    assert_eq!(throughput(0, 3, 5), Rate { whole: 0, hundredths: 0 });
}

#[test]
fn large_values_do_not_overflow() {
    let r = throughput(usize::MAX, 0, 0);
    assert!(r.hundredths < 100);
    let r = throughput(usize::MAX, u64::MAX, 999_999_999);
    assert_eq!(r, Rate { whole: 0, hundredths: 0 });
}
