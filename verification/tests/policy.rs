use power_bias::policy::{bias_for, from_read, PowerState, BIAS_MAX, BIAS_ON_AC, BIAS_ON_BATTERY};

#[test]
fn policy_on_battery_is_power_saving() {
    assert_eq!(bias_for(PowerState::OnBattery), Some(15));
    assert_eq!(bias_for(PowerState::OnBattery), Some(BIAS_ON_BATTERY));
}

#[test]
fn policy_on_ac_is_performance() {
    assert_eq!(bias_for(PowerState::OnAc), Some(0));
    assert_eq!(bias_for(PowerState::OnAc), Some(BIAS_ON_AC));
}

#[test]
fn policy_unknown_is_no_action() {
    assert_eq!(bias_for(PowerState::Unknown), None);
}

#[test]
fn policy_biases_lie_in_the_vendor_range() {
    for state in [PowerState::OnBattery, PowerState::OnAc, PowerState::Unknown] {
        if let Some(bias) = bias_for(state) {
            assert!(bias <= BIAS_MAX);
        }
    }
}

#[test]
fn read_outcomes_map_to_power_states() {
    assert_eq!(from_read(Some(true)), PowerState::OnBattery);
    assert_eq!(from_read(Some(false)), PowerState::OnAc);
    assert_eq!(from_read(None), PowerState::Unknown);
}
