//! The shared sample-rate configuration cell.
//!
//! The acquisition loop reads the live input sample rate on every iteration,
//! while the control plane overwrites it whenever it recomputes the rate.
//! The cell stores the rate as the 32-bit pattern of an IEEE-754
//! single-precision value in samples per second; the conversion between the
//! pattern and the floating-point value, like the exclusive-access wrapper
//! that shares one cell between tasks, lives outside the verified core.  A
//! fresh cell holds the all-zero pattern, the encoding of a rate of zero,
//! which means the rate is not yet known.

use vstd::prelude::*;

verus! {

/// Spectrometer configuration cell.
///
/// Holds the one live parameter the acquisition loop consumes: the input
/// sample rate, as the bit pattern of a single-precision value.
#[derive(Debug, Clone)]
pub struct SpectrometerConfig {
    samp_rate: u32,
}

impl SpectrometerConfig {
    /// The stored sample-rate bit pattern.
    pub closed spec fn rate_bits(self) -> u32 {
        self.samp_rate
    }

    /// The cell as it stands after a sample-rate write.
    pub closed spec fn with_rate_bits(self, samp_rate: u32) -> SpectrometerConfig {
        SpectrometerConfig { samp_rate }
    }

    /// Creates a configuration cell whose sample rate is not yet known.
    pub fn new() -> (c: SpectrometerConfig)
        ensures
            c.rate_bits() == 0,
    {
        SpectrometerConfig { samp_rate: 0 }
    }

    /// Returns the stored sample-rate bit pattern (samples per second).
    pub fn samp_rate(&self) -> (r: u32)
        ensures
            r == self.rate_bits(),
    {
        self.samp_rate
    }

    /// Overwrites the stored sample-rate bit pattern (samples per second).
    pub fn set_samp_rate(&mut self, samp_rate: u32)
        ensures
            *final(self) == old(self).with_rate_bits(samp_rate),
            final(self).rate_bits() == samp_rate,
    {
        self.samp_rate = samp_rate;
    }
}

impl Default for SpectrometerConfig {
    /// A fresh cell, with the sample rate not yet known.
    fn default() -> (c: SpectrometerConfig)
        ensures
            c.rate_bits() == 0,
    {
        SpectrometerConfig::new()
    }
}

/// Law: a write of the sample rate followed by a read returns exactly the
/// value written, whatever the cell held before.
pub proof fn lemma_set_then_get(c: SpectrometerConfig, samp_rate: u32)
    ensures
        c.with_rate_bits(samp_rate).rate_bits() == samp_rate,
{
}

} // verus!
