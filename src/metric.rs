use vstd::prelude::*;

verus! {

/// The eight-byte value slot of a metric, read as a counter (`u64`) or as a
/// gauge (`i64`) according to the metric's type.
#[allow(non_camel_case_types)]
#[derive(Clone, Copy, Debug)]
pub struct metric_anon_union {
    bits: u64,
}

impl metric_anon_union {
    /// The slot's 64 bits, unsigned.
    pub closed spec fn spec_bits(&self) -> u64 {
        self.bits
    }

    /// A slot not yet given a value; it reads as zero.
    pub fn uninit() -> (r: Self)
        ensures
            r.spec_bits() == 0,
    {
        metric_anon_union { bits: 0 }
    }

    /// A slot holding the counter `val`.
    pub fn counter(val: u64) -> (r: Self)
        ensures
            r.spec_bits() == val,
    {
        metric_anon_union { bits: val }
    }

    /// A slot holding the gauge `val`, in two's complement.
    pub fn gauge(val: i64) -> (r: Self)
        ensures
            r.spec_bits() == val as u64,
            r.spec_bits() as i64 == val,
    {
        assert((val as u64) as i64 == val) by (bit_vector);
        metric_anon_union { bits: val as u64 }
    }

    /// The slot read as a counter.
    pub fn counter_value(&self) -> (r: u64)
        ensures
            r == self.spec_bits(),
    {
        self.bits
    }

    /// The slot read as a gauge.
    pub fn gauge_value(&self) -> (r: i64)
        ensures
            r == self.spec_bits() as i64,
    {
        self.bits as i64
    }
}

} // verus!
