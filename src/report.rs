use vstd::prelude::*;

verus! {

/// Bytes in one mebibyte, the unit of the reported rate.
pub const BYTES_PER_MIB: u128 = 1048576;

/// Nanoseconds in one second.
pub const NANOS_PER_SEC: u128 = 1_000_000_000;

/// Elapsed time in nanoseconds, floored at one so that a rate always exists.
pub open spec fn elapsed_floor(secs: nat, subsec_nanos: nat) -> nat {
    let n = secs * 1_000_000_000 + subsec_nanos;
    if n == 0 {
        1
    } else {
        n
    }
}

/// Throughput in hundredths of MiB per second, rounded to the nearest
/// hundredth (halves up): `bytes / seconds / 2^20`, times 100.
pub open spec fn throughput_spec(bytes: nat, secs: nat, subsec_nanos: nat) -> nat {
    let d = elapsed_floor(secs, subsec_nanos) * 1048576;
    (2 * bytes * 100_000_000_000 + d) / (2 * d)
}

/// A rate split for display as `whole.hundredths`.
#[derive(Clone, Copy, Debug, PartialEq, Eq)]
pub struct Rate {
    pub whole: u128,
    pub hundredths: u128,
}

impl Rate {
    pub open spec fn value(&self) -> nat {
        (self.whole * 100 + self.hundredths) as nat
    }
}

/// Throughput of a transfer of `bytes` bytes that took `secs` seconds and
/// `subsec_nanos` nanoseconds. A zero elapsed time counts as one nanosecond.
pub fn throughput(bytes: usize, secs: u64, subsec_nanos: u32) -> (r: Rate)
    requires
        subsec_nanos < 1_000_000_000,
    ensures
        r.value() == throughput_spec(bytes as nat, secs as nat, subsec_nanos as nat),
        r.hundredths < 100,
{
    let nanos: u128 = (secs as u128) * NANOS_PER_SEC + (subsec_nanos as u128);
    let floor: u128 = if nanos == 0 {
        1
    } else {
        nanos
    };
    assert(floor <= 18_446_744_073_709_551_616_000_000_000u128);
    let d: u128 = floor * BYTES_PER_MIB;
    let num: u128 = 2 * (bytes as u128) * 100_000_000_000 + d;
    let hundredths_total: u128 = num / (2 * d);
    Rate { whole: hundredths_total / 100, hundredths: hundredths_total % 100 }
}

/// The rate is at most the byte count times
/// `10^11 / 2^20` plus one half, whatever the elapsed time, zero included.
pub proof fn lemma_throughput_bounded(bytes: nat, secs: nat, subsec_nanos: nat)
    ensures
        throughput_spec(bytes, secs, subsec_nanos) <= bytes * 100_000_000_000 + 1,
        bytes == 0 ==> throughput_spec(bytes, secs, subsec_nanos) == 0,
{
    let d = elapsed_floor(secs, subsec_nanos) * 1048576;
    assert(d >= 1048576) by (nonlinear_arith)
        requires
            d == elapsed_floor(secs, subsec_nanos) * 1048576,
            elapsed_floor(secs, subsec_nanos) >= 1,
    ;
    let num = 2 * bytes * 100_000_000_000 + d;
    assert(num / (2 * d) <= bytes * 100_000_000_000 + 1) by (nonlinear_arith)
        requires
            d >= 1,
            num == 2 * bytes * 100_000_000_000 + d,
    ;
    if bytes == 0 {
        assert(d / (2 * d) == 0) by (nonlinear_arith)
            requires
                d >= 1,
        ;
    }
}

} // verus!
