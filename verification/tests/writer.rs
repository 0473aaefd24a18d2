use power_bias::text::decimal_string;
use power_bias::writer::{apply_bias, tunable_path, CORE_COUNT};

#[test]
fn decimal_text_is_minimal() {
    assert_eq!(decimal_string(0), "0");
    assert_eq!(decimal_string(7), "7");
    assert_eq!(decimal_string(10), "10");
    assert_eq!(decimal_string(15), "15");
    assert_eq!(decimal_string(100), "100");
    assert_eq!(decimal_string(255), "255");
}

#[test]
fn tunable_paths_name_each_core() {
    assert_eq!(
        tunable_path(0),
        "/sys/devices/system/cpu/cpu0/power/energy_perf_bias"
    );
    assert_eq!(
        tunable_path(15),
        "/sys/devices/system/cpu/cpu15/power/energy_perf_bias"
    );
}

#[test]
fn batch_covers_every_core_once() {
    let batch = apply_bias(15);
    assert_eq!(batch.len(), CORE_COUNT);
    for (index, command) in batch.iter().enumerate() {
        assert_eq!(
            command.path,
            format!("/sys/devices/system/cpu/cpu{}/power/energy_perf_bias", index)
        );
        assert_eq!(command.payload, "15");
    }
}

#[test]
fn batch_payload_is_decimal_text_of_bias() {
    let low = apply_bias(0);
    assert_eq!(low.len(), CORE_COUNT);
    for command in &low {
        assert_eq!(command.payload, "0");
    }
    let high = apply_bias(15);
    for command in &high {
        assert_eq!(command.payload, "15");
    }
}

#[test]
fn applying_the_same_bias_twice_plans_the_same_batch() {
    let first = apply_bias(15);
    let second = apply_bias(15);
    assert_eq!(first.len(), second.len());
    for (a, b) in first.iter().zip(second.iter()) {
        assert_eq!(a.path, b.path);
        assert_eq!(a.payload, b.payload);
    }
}
