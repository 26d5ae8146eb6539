use ethercrab::error::Error;
use festo_robotcontroller::device::Device;
use festo_robotcontroller::image::{bit_in, le_u32_in, MappedPdo, ProcessImage};
use festo_robotcontroller::servo::Servo;

const FIELDS: [MappedPdo; 8] = [
    MappedPdo::ControlStatusWord,
    MappedPdo::OperationMode,
    MappedPdo::Position,
    MappedPdo::ProfileVelocity,
    MappedPdo::Velocity,
    MappedPdo::Torque,
    MappedPdo::VelocityOffset,
    MappedPdo::TorqueOffset,
];

fn image(len: usize) -> ProcessImage {
    ProcessImage::located(vec![0; len], vec![0; len])
}

#[test]
fn set_then_get_every_bit_and_field() {
    for len in [1usize, 2, 3, 7, 18, 25] {
        for field in FIELDS {
            for bit in 0u8..16 {
                let mut img = image(len);
                img.outputs = vec![0xA5; len];
                img.set_bit(bit, field);
                assert!(bit_in(&img.outputs, bit, field.offset()));
                img.unset_bit(bit, field);
                assert!(!bit_in(&img.outputs, bit, field.offset()));
            }
        }
    }
}

#[test]
fn set_bit_writes_the_addressed_byte() {
    let mut img = image(25);
    assert_eq!(img.set_bit(2, MappedPdo::ControlStatusWord), 0b100);
    assert_eq!(img.set_bit(0, MappedPdo::ControlStatusWord), 0b101);
    assert_eq!(img.unset_bit(2, MappedPdo::ControlStatusWord), 0b001);
    assert_eq!(img.set_bit(3, MappedPdo::Position), 0b1000);
    assert_eq!(img.outputs[3], 0b1000);
    assert_eq!(img.outputs[0], 0b001);
}

#[test]
fn bit_eight_spills_into_next_byte() {
    let mut img = image(25);
    img.set_bit(8, MappedPdo::Position);
    assert_eq!(img.outputs[4], 1);
    assert_eq!(img.outputs.iter().filter(|b| **b != 0).count(), 1);
    let mut img = image(25);
    img.set_bit(15, MappedPdo::ControlStatusWord);
    assert_eq!(img.outputs[1], 0x80);
}

#[test]
fn bit_address_wraps_at_image_end() {
    // Position starts at byte 3; bit 8 of it is bit 0 of byte (3 + 1) mod 4 = 0.
    let mut img = image(4);
    img.set_bit(8, MappedPdo::Position);
    assert_eq!(img.outputs, vec![1, 0, 0, 0]);
    // Mode byte 2 in a 3-byte image: bit 8 lands in byte 0.
    let mut img = image(3);
    img.set_bit(8, MappedPdo::OperationMode);
    assert_eq!(img.outputs, vec![1, 0, 0]);
    // Torque offset (byte 21) in an 18-byte image: byte 21 mod 18 = 3.
    let mut img = image(18);
    img.set_bit(1, MappedPdo::TorqueOffset);
    assert_eq!(img.outputs[3], 2);
    let mut img = ProcessImage::located(vec![0, 0, 0, 0x01], vec![]);
    assert!(img.get_bit(8, MappedPdo::OperationMode));
    assert!(!img.get_bit(0, MappedPdo::OperationMode));
    assert_eq!(img.set_bit(0, MappedPdo::ControlStatusWord), 0);
}

#[test]
fn unavailable_image_is_a_soft_no_op() {
    let mut img = ProcessImage::unavailable(Error::Internal);
    assert_eq!(img.set_bit(3, MappedPdo::ControlStatusWord), 0);
    assert_eq!(img.unset_bit(3, MappedPdo::ControlStatusWord), 0);
    assert!(!img.get_bit(3, MappedPdo::ControlStatusWord));
    assert!(img.outputs.is_empty());
    assert_eq!(img.get_16(0), Err(Error::Internal));
    assert_eq!(img.set_32(MappedPdo::Position, 7), Err(Error::Internal));
    assert_eq!(img.clear_outputs(), Err(Error::Internal));
}

#[test]
fn get_16_reads_little_endian() {
    let img = ProcessImage::located(vec![0x34, 0x12, 0xFF], vec![]);
    let device = Device { id: 1 };
    assert_eq!(device.get_16(&img, 0), Ok(0x1234));
    assert_eq!(device.get_16(&img, 1), Ok(0xFF12));
    assert_eq!(device.get_16(&img, 2), Ok(0x00FF));
    let missing = ProcessImage::unavailable(Error::Timeout);
    assert_eq!(device.get_16(&missing, 0), Err(Error::Timeout));
}

#[test]
fn position_round_trip_keeps_bit_pattern() {
    for target in [0i32, 1, -1, -123_456, 0x1234_5678, i32::MIN, i32::MAX] {
        let mut img = image(18);
        img.set_32(MappedPdo::Position, target as u32).unwrap();
        img.inputs = img.outputs.clone();
        let servo = Servo::new(Device { id: 0 });
        assert_eq!(servo.get_position(&img), Ok(target as u32));
    }
    let mut img = image(18);
    img.set_32(MappedPdo::Position, (-2i32) as u32).unwrap();
    assert_eq!(&img.outputs[3..7], &[0xFE, 0xFF, 0xFF, 0xFF]);
}

#[test]
fn field_write_stays_inside_field() {
    let mut img = ProcessImage::located(vec![], vec![0xEE; 12]);
    img.set_32(MappedPdo::Position, 0x0403_0201).unwrap();
    assert_eq!(img.outputs, vec![0xEE, 0xEE, 0xEE, 1, 2, 3, 4, 0xEE, 0xEE, 0xEE, 0xEE, 0xEE]);
    // Bytes past the end of a short image are not written.
    let mut img = ProcessImage::located(vec![], vec![0; 5]);
    img.set_32(MappedPdo::Position, 0x0403_0201).unwrap();
    assert_eq!(img.outputs, vec![0, 0, 0, 1, 2]);
}

#[test]
fn position_read_of_short_image_takes_bytes_present() {
    let img = ProcessImage::located(vec![9, 9, 9, 0x01, 0x02], vec![]);
    let servo = Servo::new(Device { id: 0 });
    assert_eq!(servo.get_position(&img), Ok(0x0201));
    assert_eq!(le_u32_in(&vec![1, 2, 3, 4, 5], 1), 0x0504_0302);
    assert_eq!(servo.get_position(&ProcessImage::unavailable(Error::Internal)), Err(Error::Internal));
}

#[test]
fn clear_outputs_zeroes_every_byte() {
    let mut img = ProcessImage::located(vec![7; 3], vec![0xFF; 6]);
    assert_eq!(img.clear_outputs(), Ok(()));
    assert_eq!(img.outputs, vec![0; 6]);
    assert_eq!(img.inputs, vec![7; 3]);
}

#[test]
fn field_offsets_follow_the_mapping() {
    let offsets: Vec<usize> = FIELDS.iter().map(|f| f.offset()).collect();
    assert_eq!(offsets, vec![0, 2, 3, 7, 11, 15, 17, 21]);
}
