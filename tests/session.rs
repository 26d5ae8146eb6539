use festo_robotcontroller::session::{
    cycle_pause, input_pdo_mapping, is_supported_device, output_pdo_mapping, PDO_INPUT_INDEX,
    PDO_OUTPUT_INDEX,
};

#[test]
fn supported_devices_by_name_or_identity() {
    assert!(is_supported_device("CMMT-AS", 0));
    assert!(is_supported_device("CMMT-ST", 0));
    assert!(is_supported_device("other", 0x7B_5A25));
    assert!(is_supported_device("", 0x7B_1A95));
    assert!(!is_supported_device("CMMT-A", 0x7B_5A24));
    assert!(!is_supported_device("CMMT-AST", 1));
}

#[test]
fn pdo_mappings() {
    assert_eq!(PDO_OUTPUT_INDEX, 0x1600);
    assert_eq!(PDO_INPUT_INDEX, 0x1A00);
    let out = output_pdo_mapping();
    assert_eq!(out.len(), 9);
    assert_eq!(out[0], 0x6040_0010);
    assert_eq!(out[2], 0x607a_0020);
    assert_eq!(out[8], 0x0000_0008);
    let inp = input_pdo_mapping();
    assert_eq!(inp.len(), 7);
    assert_eq!(inp[0], 0x6041_0010);
    assert_eq!(inp[5], 0x2194_0520);
}

#[test]
fn cycle_pause_fills_rest_of_cycle() {
    assert_eq!(cycle_pause(1_000_000, 250_000), Some(750_000));
    assert_eq!(cycle_pause(1_000_000, 1_000_000), Some(0));
    assert_eq!(cycle_pause(1_000_000, 1_000_001), None);
}
