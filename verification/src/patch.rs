//! The plan for applying a control-plane patch to the hardware registers.
//!
//! A patch names the spectrometer parameters to change: the integration
//! exponent, the two kurtosis tuning parameters, and the kurtosis enable
//! flag, each optional.  The verified plan turns a patch into the exact list
//! of register writes to perform, in a fixed order; the unverified edge
//! carries the writes to the register interface and stops at the first one
//! the hardware rejects, reporting that failure to the patch's caller.

use vstd::prelude::*;

verus! {

/// A control-plane patch of the spectrometer parameters.  Absent fields are
/// left as they are.
#[derive(Debug, Clone, PartialEq, Eq, Structural)]
pub struct SpectrometerPatch {
    /// New integration exponent, if it is to change.
    pub integrations_exp: Option<u32>,
    /// New first kurtosis tuning parameter, if it is to change.
    pub kurt_1: Option<u32>,
    /// New second kurtosis tuning parameter, if it is to change.
    pub kurt_2: Option<u32>,
    /// New kurtosis enable flag, if it is to change.
    pub kurt_enable: Option<bool>,
}

/// One write to a spectrometer register.
#[derive(Debug, Clone, Copy, PartialEq, Eq, Structural)]
pub enum RegisterWrite {
    /// Set the integration exponent.
    IntegrationsExp(u32),
    /// Set the first kurtosis tuning parameter.
    Kurt1(u32),
    /// Set the second kurtosis tuning parameter.
    Kurt2(u32),
    /// Set the kurtosis enable flag.
    KurtEnable(bool),
}

/// The writes a patch asks for: one per present field, in the fixed order
/// integration exponent, first kurtosis parameter, second kurtosis parameter,
/// kurtosis enable.
pub open spec fn patch_writes_spec(p: SpectrometerPatch) -> Seq<RegisterWrite> {
    (match p.integrations_exp {
        Some(n) => seq![RegisterWrite::IntegrationsExp(n)],
        None => Seq::empty(),
    }) + (match p.kurt_1 {
        Some(k) => seq![RegisterWrite::Kurt1(k)],
        None => Seq::empty(),
    }) + (match p.kurt_2 {
        Some(k) => seq![RegisterWrite::Kurt2(k)],
        None => Seq::empty(),
    }) + (match p.kurt_enable {
        Some(e) => seq![RegisterWrite::KurtEnable(e)],
        None => Seq::empty(),
    })
}

/// Plans a patch: returns exactly the register writes its present fields ask
/// for, in the fixed register order.
pub fn patch_writes(p: &SpectrometerPatch) -> (r: Vec<RegisterWrite>)
    ensures
        r@ == patch_writes_spec(*p),
{
    let mut r: Vec<RegisterWrite> = Vec::new();
    if let Some(n) = p.integrations_exp {
        r.push(RegisterWrite::IntegrationsExp(n));
    }
    if let Some(k) = p.kurt_1 {
        r.push(RegisterWrite::Kurt1(k));
    }
    if let Some(k) = p.kurt_2 {
        r.push(RegisterWrite::Kurt2(k));
    }
    if let Some(e) = p.kurt_enable {
        r.push(RegisterWrite::KurtEnable(e));
    }
    proof {
        assert(r@ =~= patch_writes_spec(*p));
    }
    r
}

} // verus!
