use ecoguard::health::MICROS_PER_MM_S;
use ecoguard::{MachineHealth, ZoneThresholds};

fn iso() -> ZoneThresholds {
    ZoneThresholds::iso_10816_class_ii()
}

#[test]
fn iso_thresholds_are_1_4_2_8_7_1() {
    let t = iso();
    assert_eq!(t.a_to_b, 1_400_000);
    assert_eq!(t.b_to_c, 2_800_000);
    assert_eq!(t.c_to_d, 7_100_000);
    assert_eq!(MICROS_PER_MM_S, 1_000_000);
}

#[test]
fn classifier_boundaries_are_exact() {
    let t = iso();
    assert_eq!(t.classify(1_400_000), MachineHealth::ZoneB);
    assert_eq!(t.classify(1_399_999), MachineHealth::ZoneA);
    assert_eq!(t.classify(2_800_000), MachineHealth::ZoneC);
    assert_eq!(t.classify(7_100_000), MachineHealth::ZoneD);
    assert_eq!(t.classify(7_099_999), MachineHealth::ZoneC);
}

#[test]
fn zero_rms_is_zone_a() {
    assert_eq!(iso().classify(0), MachineHealth::ZoneA);
}

#[test]
fn largest_rms_is_zone_d() {
    assert_eq!(iso().classify(u64::MAX), MachineHealth::ZoneD);
}

#[test]
fn classifier_is_monotonic_on_a_sweep() {
    let t = iso();
    let mut last = 0u8;
    let mut rms = 0u64;
    while rms <= 10_000_000 {
        let r = t.classify(rms).rank();
        assert!(r >= last);
        last = r;
        rms += 50_000;
    }
    assert_eq!(last, 3);
}

#[test]
fn custom_thresholds_replace_the_policy() {
    let t = ZoneThresholds::new(10, 20, 30).unwrap();
    assert_eq!(t.classify(9), MachineHealth::ZoneA);
    assert_eq!(t.classify(10), MachineHealth::ZoneB);
    assert_eq!(t.classify(25), MachineHealth::ZoneC);
    assert_eq!(t.classify(30), MachineHealth::ZoneD);
}

#[test]
fn equal_thresholds_skip_zones() {
    let t = ZoneThresholds::new(5, 5, 5).unwrap();
    assert_eq!(t.classify(4), MachineHealth::ZoneA);
    assert_eq!(t.classify(5), MachineHealth::ZoneD);
}

#[test]
fn unordered_thresholds_are_refused() {
    assert_eq!(ZoneThresholds::new(20, 10, 30), None);
    assert_eq!(ZoneThresholds::new(10, 30, 20), None);
}

#[test]
fn zone_labels_and_ranks() {
    assert_eq!(MachineHealth::ZoneA.label(), "Zone A (Good)");
    assert_eq!(MachineHealth::ZoneB.label(), "Zone B (Acceptable)");
    assert_eq!(MachineHealth::ZoneC.label(), "Zone C (Unsatisfactory)");
    assert_eq!(MachineHealth::ZoneD.label(), "Zone D (Danger)");
    assert_eq!(MachineHealth::ZoneA.rank(), 0);
    assert_eq!(MachineHealth::ZoneD.rank(), 3);
}
