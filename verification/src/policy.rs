//! The power policy itself: the observed power source, and the bias
//! level that each observation calls for.

use vstd::prelude::*;

verus! {

/// Bias level applied while the machine runs on battery: maximum
/// power saving.
pub const BIAS_ON_BATTERY: u8 = 15;

/// Bias level applied while the machine runs on AC power: maximum
/// performance.
pub const BIAS_ON_AC: u8 = 0;

/// Largest bias level the vendor range admits.
pub const BIAS_MAX: u8 = 15;

/// What one observation of the power source can say. A failed read of
/// the power property is itself meaningful and becomes `Unknown`.
#[derive(Clone, Copy, Debug, PartialEq, Eq, Structural)]
pub enum PowerState {
    OnBattery,
    OnAc,
    Unknown,
}

/// The power state that a tri-state read yields: `Some(true)` means
/// on battery, `Some(false)` means on AC, `None` means the read failed.
pub open spec fn spec_from_read(read: Option<bool>) -> PowerState {
    match read {
        Some(true) => PowerState::OnBattery,
        Some(false) => PowerState::OnAc,
        None => PowerState::Unknown,
    }
}

/// Turns the outcome of reading the "on battery" property into a
/// `PowerState`.
pub fn from_read(read: Option<bool>) -> (state: PowerState)
    ensures
        state == spec_from_read(read),
{
    match read {
        Some(true) => PowerState::OnBattery,
        Some(false) => PowerState::OnAc,
        None => PowerState::Unknown,
    }
}

/// The policy mapping, total over all three power states: on battery
/// the bias goes to maximum power saving, on AC to maximum
/// performance, and an unknown state calls for no action at all.
pub open spec fn spec_bias_for(state: PowerState) -> Option<u8> {
    match state {
        PowerState::OnBattery => Some(BIAS_ON_BATTERY),
        PowerState::OnAc => Some(BIAS_ON_AC),
        PowerState::Unknown => None,
    }
}

/// The bias level that `state` calls for: `None` means no write batch
/// is to be issued.
pub fn bias_for(state: PowerState) -> (bias: Option<u8>)
    ensures
        bias == spec_bias_for(state),
{
    match state {
        PowerState::OnBattery => Some(BIAS_ON_BATTERY),
        PowerState::OnAc => Some(BIAS_ON_AC),
        PowerState::Unknown => None,
    }
}

/// Every bias the policy selects lies in the vendor range.
pub proof fn lemma_policy_bias_in_range(state: PowerState)
    ensures
        spec_bias_for(state) matches Some(b) ==> b <= BIAS_MAX,
{
}

} // verus!
