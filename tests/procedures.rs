use ethercrab::error::Error;
use festo_robotcontroller::device::{
    Device, DeviceError, EnableError, OperationMode, ResetError, SetModeError, Timeout,
    ENABLE_BUDGET, MODE_RETRIES,
};
use festo_robotcontroller::image::{bit_in, ProcessImage};
use festo_robotcontroller::run::Step;
use festo_robotcontroller::servo::{
    FullControlMovementError, FullMoveStep, HomingError, JoggingError, MovementError,
    MovementMode, Servo,
};

const SWITCHED_ON: u16 = 1 << 1;
const OPERATION_ENABLED: u16 = 1 << 2;
const FAULT: u16 = 1 << 3;
const VOLTAGE_ENABLED: u16 = 1 << 4;
const QUICK_STOP: u16 = 1 << 5;
const WARNING: u16 = 1 << 7;
const MOTION_COMPLETE: u16 = 1 << 10;
const ACK: u16 = 1 << 12;
const HOMED: u16 = 1 << 15;
const READY: u16 = VOLTAGE_ENABLED | QUICK_STOP | OPERATION_ENABLED | SWITCHED_ON;

/// Inputs of a drive: status word, mode echo, the rest zero.
fn inputs(status: u16, mode: u8) -> Vec<u8> {
    let mut v = vec![0u8; 18];
    v[0] = (status & 0xFF) as u8;
    v[1] = (status >> 8) as u8;
    v[2] = mode;
    v
}

/// A drive that sends `feed(n, outputs)` once `n` exchanges have taken place.
fn drive<R>(
    image: &mut ProcessImage,
    mut step: impl FnMut(&mut ProcessImage) -> Step<R>,
    feed: impl Fn(usize, &[u8]) -> Vec<u8>,
    limit: usize,
) -> (R, usize) {
    let mut cycles = 0usize;
    image.inputs = feed(0, &image.outputs);
    loop {
        match step(image) {
            Step::Done(r) => return (r, cycles),
            Step::Cycle => {
                cycles += 1;
                assert!(cycles <= limit, "procedure did not finish");
                image.inputs = feed(cycles, &image.outputs);
            }
        }
    }
}

fn fresh() -> ProcessImage {
    ProcessImage::located(vec![0; 18], vec![0; 25])
}

fn control_bit(image: &ProcessImage, bit: u8) -> bool {
    bit_in(&image.outputs, bit, 0)
}

/// Echoes the mode byte it receives.
fn echo(status: u16) -> impl Fn(usize, &[u8]) -> Vec<u8> {
    move |_, out: &[u8]| inputs(status, out[2])
}

#[test]
fn reset_twice_on_healthy_device() {
    let device = Device { id: 4 };
    let mut image = fresh();
    image.outputs = vec![0xFF; 25];
    let mut toggled = false;
    for _ in 0..2 {
        let mut reset = device.reset();
        let (r, cycles) = drive(
            &mut image,
            |img| {
                let s = reset.step(img);
                toggled |= control_bit(img, 7);
                s
            },
            |_, _| inputs(0, 0),
            10,
        );
        assert_eq!(r, Ok(()));
        assert_eq!(cycles, 1);
    }
    assert!(!toggled);
    assert_eq!(image.outputs, vec![0; 25]);
}

#[test]
fn reset_toggles_fault_reset_until_clear() {
    let device = Device { id: 1 };
    let mut image = fresh();
    let mut reset = device.reset();
    let mut raised = 0usize;
    let (r, cycles) = drive(
        &mut image,
        |img| {
            let s = reset.step(img);
            if control_bit(img, 7) {
                raised += 1;
            }
            s
        },
        |n, _| inputs(if n < 4 { FAULT } else { 0 }, 0),
        2000,
    );
    assert_eq!(r, Ok(()));
    assert_eq!(cycles, 4);
    assert_eq!(raised, 3);
    assert!(!control_bit(&image, 7));
}

#[test]
fn reset_reports_which_bit_stayed() {
    let cases = [
        (FAULT, ResetError::ResetFailedFault(3)),
        (WARNING, ResetError::ResetFailedWarning(3)),
        (FAULT | WARNING, ResetError::ResetFailed(3)),
    ];
    for (status, expected) in cases {
        let mut image = fresh();
        let mut reset = Device { id: 3 }.reset();
        let (r, cycles) = drive(&mut image, |img| reset.step(img), |_, _| inputs(status, 0), 2000);
        assert_eq!(r, Err(expected));
        assert_eq!(expected.device(), 3);
        assert_eq!(cycles, 1001);
    }
}

#[test]
fn reset_of_missing_device() {
    let mut image = ProcessImage::unavailable(Error::Internal);
    let mut reset = Device { id: 9 }.reset();
    let r = reset.step(&mut image);
    assert_eq!(r, Step::Done(Err(ResetError::DeviceInUse(9, Error::Internal))));
    assert_eq!(ResetError::DeviceInUse(9, Error::Internal).device(), 9);
}

#[test]
fn get_error_from_status_bits() {
    let device = Device { id: 0 };
    let img = |s: u16| ProcessImage::located(inputs(s, 0), vec![0; 4]);
    assert_eq!(device.get_error(&img(0)), DeviceError::NoFault);
    assert_eq!(device.get_error(&img(FAULT)), DeviceError::Fault);
    assert_eq!(device.get_error(&img(WARNING)), DeviceError::Warning);
    assert_eq!(device.get_error(&img(FAULT | WARNING)), DeviceError::FaultAndWarning);
}

/// A drive that reports voltage from exchange `n` and operation from exchange `m` on.
fn staged(n: usize, m: usize) -> impl Fn(usize, &[u8]) -> Vec<u8> {
    move |k, _| {
        let mut s = 0;
        if k >= n {
            s |= VOLTAGE_ENABLED | QUICK_STOP;
        }
        if k >= m {
            s |= OPERATION_ENABLED | SWITCHED_ON;
        }
        inputs(s, 0)
    }
}

#[test]
fn enable_succeeds_after_staged_answers() {
    let mut image = fresh();
    let mut enable = Device::new(6);
    let (r, cycles) = drive(&mut image, |img| enable.step(img), staged(3, 7), 100);
    assert_eq!(r, Ok(Device { id: 6 }));
    assert_eq!(cycles, 7);
    for bit in [0u8, 1, 2, 3] {
        assert!(control_bit(&image, bit));
    }
}

#[test]
fn device_new_takes_five_cycles() {
    let mut image = fresh();
    let mut enable = Device::new(2);
    let (r, cycles) = drive(&mut image, |img| enable.step(img), staged(2, 5), 100);
    assert_eq!(r, Ok(Device { id: 2 }));
    assert_eq!(cycles, 5);
}

#[test]
fn enable_times_out_after_full_budget() {
    let mut image = fresh();
    let mut enable = Device::new(5);
    let (r, cycles) = drive(
        &mut image,
        |img| enable.step(img),
        |_, _| inputs(VOLTAGE_ENABLED | QUICK_STOP, 0),
        2_000_000,
    );
    assert_eq!(r, Err(EnableError::Timeout(5)));
    assert_eq!(cycles, ENABLE_BUDGET as usize + 1);
}

#[test]
fn enable_fails_when_voltage_drops() {
    let mut image = fresh();
    let mut enable = Device::new(8);
    let (r, _) = drive(
        &mut image,
        |img| enable.step(img),
        |k, _| {
            if k < 3 {
                inputs(VOLTAGE_ENABLED | QUICK_STOP, 0)
            } else {
                inputs(OPERATION_ENABLED | SWITCHED_ON, 0)
            }
        },
        100,
    );
    assert_eq!(r, Err(EnableError::Failed(8)));
}

#[test]
fn enable_after_failed_reset() {
    let mut image = fresh();
    let mut enable = Device::new(1);
    let (r, _) = drive(&mut image, |img| enable.step(img), |_, _| inputs(FAULT, 0), 2000);
    assert_eq!(r, Err(EnableError::ResetFailed(ResetError::ResetFailedFault(1))));
}

#[test]
fn homing_fails_when_mode_never_echoed() {
    let mut image = fresh();
    let mut homing = Servo::new(Device { id: 2 }).home(true);
    let (r, cycles) = drive(&mut image, |img| homing.step(img), |_, _| inputs(READY, 1), 1000);
    assert_eq!(r, Err(HomingError::SetMode(SetModeError(2, OperationMode::Homing))));
    assert_eq!(cycles, MODE_RETRIES as usize);
    assert_eq!(image.outputs[2], 6);
}

#[test]
fn move_fails_when_mode_never_echoed() {
    let mut image = fresh();
    let mut motion = Servo::new(Device { id: 2 }).move_position(100, MovementMode::Absolute);
    let (r, cycles) = drive(&mut image, |img| motion.step(img), |_, _| inputs(READY, 0), 1000);
    assert_eq!(
        r,
        Err(MovementError::SetMode(SetModeError(2, OperationMode::ProfilePosition)))
    );
    assert_eq!(cycles, 100);
}

#[test]
fn jog_fails_when_mode_never_echoed() {
    let mut image = fresh();
    let mut jog = Servo::new(Device { id: 7 }).jog_negative();
    let (r, cycles) = drive(&mut image, |img| jog.step(img), |_, _| inputs(READY, 1), 1000);
    assert_eq!(r, Err(JoggingError::SetMode(SetModeError(7, OperationMode::Jog))));
    assert_eq!(cycles, 100);
    assert_eq!(OperationMode::Jog.byte(), 253);
}

#[test]
fn motion_refused_on_disabled_drive() {
    let servo = Servo::new(Device { id: 3 });
    let off = |_: usize, _: &[u8]| inputs(VOLTAGE_ENABLED, 0);
    let mut image = fresh();
    let mut homing = servo.home(false);
    assert_eq!(drive(&mut image, |i| homing.step(i), off, 0), (Err(HomingError::DeviceDisabled(3)), 0));
    let mut jog = servo.jog_positive();
    assert_eq!(drive(&mut image, |i| jog.step(i), off, 0), (Err(JoggingError::DeviceDisabled(3)), 0));
    let mut motion = servo.move_position(5, MovementMode::Relative);
    assert_eq!(drive(&mut image, |i| motion.step(i), off, 0), (Err(MovementError::DriveDisabled(3)), 0));
    assert_eq!(image.outputs, vec![0; 25]);
}

/// Steps a move and records the control word sent with each exchange.
fn run_move(movement: MovementMode) -> (Vec<u16>, ProcessImage) {
    let mut image = fresh();
    image.outputs[0] = 0x7F;
    image.outputs[1] = 0x01;
    let mut motion = Servo::new(Device { id: 1 }).move_position(-5, movement);
    let mut sent = Vec::new();
    let (r, _) = drive(
        &mut image,
        |img| {
            let s = motion.step(img);
            if s == Step::Cycle {
                sent.push(img.outputs[0] as u16 | (img.outputs[1] as u16) << 8);
            }
            s
        },
        |k, out: &[u8]| {
            let mut s = READY;
            if k >= 3 {
                s |= ACK;
            }
            if k >= 5 {
                s |= MOTION_COMPLETE;
            }
            inputs(s, out[2])
        },
        100,
    );
    assert_eq!(r, Ok(()));
    (sent, image)
}

#[test]
fn relative_move_latches_with_relative_flag() {
    let (sent, image) = run_move(MovementMode::Relative);
    // The first exchange waits for the mode echo; the second follows the target write, and
    // the third raises the set-point.
    assert!(sent[0] & (1 << 6) == 0);
    assert!(sent[1] & (1 << 6) != 0);
    assert!(sent[1] & (1 << 4) == 0);
    assert!(sent[2] & (1 << 6) != 0);
    assert!(sent[2] & (1 << 4) != 0);
    assert!(sent[2] & (1 << 8) == 0);
    assert_eq!(sent.len(), 5);
    assert_eq!(&image.outputs[3..7], &(-5i32).to_le_bytes());
    assert_eq!(image.outputs[2], 1);
}

#[test]
fn absolute_move_latches_without_relative_flag() {
    let (sent, _) = run_move(MovementMode::Absolute);
    assert!(sent[1] & (1 << 6) == 0);
    assert!(sent[2] & (1 << 6) == 0);
    assert!(sent[2] & (1 << 4) != 0);
}

#[test]
fn move_with_velocity_writes_profile_velocity() {
    let mut image = fresh();
    let mut motion = Servo::new(Device { id: 1 }).move_position_velocity(1000, 0x0102_0304, MovementMode::Absolute);
    let (r, cycles) = drive(&mut image, |i| motion.step(i), |_, out: &[u8]| inputs(READY | ACK | MOTION_COMPLETE, out[2]), 10);
    assert_eq!(r, Ok(()));
    assert_eq!(cycles, 2);
    assert_eq!(&image.outputs[7..11], &[4, 3, 2, 1]);
    assert_eq!(&image.outputs[3..7], &1000i32.to_le_bytes());
    let mut missing = ProcessImage::unavailable(Error::Internal);
    let mut motion = Servo::new(Device { id: 1 }).move_position_velocity(1, 2, MovementMode::Absolute);
    assert_eq!(motion.step(&mut missing), Step::Done(Err(MovementError::Ethercat(Error::Internal))));
}

#[test]
fn homing_skipped_when_already_homed() {
    let mut image = fresh();
    let mut homing = Servo::new(Device { id: 1 }).home(false);
    let (r, cycles) = drive(&mut image, |i| homing.step(i), echo(READY | HOMED), 10);
    assert_eq!(r, Ok(()));
    assert_eq!(cycles, 1);
    assert!(!control_bit(&image, 4));
}

#[test]
fn homing_waits_for_acknowledgement() {
    let mut image = fresh();
    let mut homing = Servo::new(Device { id: 1 }).home(true);
    let (r, cycles) = drive(
        &mut image,
        |i| homing.step(i),
        |k, out: &[u8]| inputs(if k >= 6 { READY | HOMED | ACK } else { READY | HOMED }, out[2]),
        100,
    );
    assert_eq!(r, Ok(()));
    assert_eq!(cycles, 6);
    assert!(!control_bit(&image, 4));
    assert_eq!(image.outputs[2], 6);
}

#[test]
fn jog_raises_direction_bit_after_motion_completes() {
    for (positive, bit) in [(true, 4u8), (false, 5u8)] {
        let mut image = fresh();
        let servo = Servo::new(Device { id: 1 });
        let mut jog = if positive { servo.jog_positive() } else { servo.jog_negative() };
        let (r, cycles) = drive(
            &mut image,
            |i| jog.step(i),
            |k, out: &[u8]| inputs(if k >= 3 { READY | MOTION_COMPLETE } else { READY }, out[2]),
            100,
        );
        assert_eq!(r, Ok(()));
        assert_eq!(cycles, 3);
        assert!(control_bit(&image, bit));
        assert!(!control_bit(&image, 9 - bit));
        assert_eq!(image.outputs[2], 253);
    }
}

#[test]
fn jog_stop_on_disabled_drive_returns_at_once() {
    let mut image = fresh();
    image.outputs[0] = 0x30;
    let before = image.outputs.clone();
    let mut stop = Servo::new(Device { id: 1 }).jog_stop();
    let (r, cycles) = drive(&mut image, |i| stop.step(i), |_, _| inputs(VOLTAGE_ENABLED, 0), 0);
    assert_eq!(r, ());
    assert_eq!(cycles, 0);
    assert_eq!(image.outputs, before);
}

#[test]
fn jog_stop_clears_bits_and_waits() {
    let mut image = fresh();
    image.outputs[0] = 0x30 | 0x0F;
    let mut stop = Servo::new(Device { id: 1 }).jog_stop();
    let (_, cycles) = drive(
        &mut image,
        |i| stop.step(i),
        |k, _| inputs(if k >= 2 { READY | MOTION_COMPLETE } else { READY }, 0),
        10,
    );
    assert_eq!(cycles, 2);
    assert_eq!(image.outputs[0], 0x0F);
}

#[test]
fn disable_lowers_enable_bits() {
    let mut image = fresh();
    image.outputs[0] = 0x0F;
    let mut disable = Servo::new(Device { id: 1 }).disable();
    let (r, cycles) = drive(
        &mut image,
        |i| disable.step(i),
        |k, _| inputs(if k >= 3 { 0 } else { READY }, 0),
        2000,
    );
    assert_eq!(r, Ok(()));
    assert_eq!(cycles, 3);
    assert_eq!(image.outputs[0], 0);
}

#[test]
fn disable_times_out() {
    let mut image = fresh();
    let mut disable = Device { id: 1 }.disable();
    let (r, cycles) = drive(&mut image, |i| disable.step(i), |_, _| inputs(READY, 0), 5000);
    assert_eq!(r, Err(Timeout));
    assert_eq!(cycles, 1001);
}

/// Steps a full move, answering object writes from `replies` in turn.
fn run_full_move(image: &mut ProcessImage, replies: Vec<Result<(), Error>>) -> (Result<(), FullControlMovementError>, Vec<(u16, u32)>) {
    let mut motion = Servo::new(Device { id: 4 }).move_position_velocity_acceleration(10, 20, 30, 40, MovementMode::Absolute);
    let mut writes = Vec::new();
    let mut replies = replies.into_iter();
    for k in 0..100usize {
        image.inputs = if image.missing.is_none() {
            inputs(READY | ACK | MOTION_COMPLETE, image.outputs[2])
        } else {
            Vec::new()
        };
        match motion.step(image) {
            FullMoveStep::Done(r) => return (r, writes),
            FullMoveStep::Cycle => {}
            FullMoveStep::WriteObject { index, subindex, value } => {
                assert_eq!(subindex, 0);
                writes.push((index, value));
                motion.written(replies.next().unwrap_or(Ok(())));
            }
        }
        assert!(k < 99);
    }
    unreachable!()
}

#[test]
fn full_move_writes_acceleration_then_deceleration() {
    let mut image = fresh();
    let (r, writes) = run_full_move(&mut image, vec![]);
    assert_eq!(r, Ok(()));
    assert_eq!(writes, vec![(0x6083, 30), (0x6084, 40)]);
    assert_eq!(&image.outputs[7..11], &20u32.to_le_bytes());
}

#[test]
fn full_move_errors() {
    let mut image = fresh();
    let (r, writes) = run_full_move(&mut image, vec![Err(Error::Timeout)]);
    assert_eq!(r, Err(FullControlMovementError::WritingAccelerationFailed(4, Error::Timeout)));
    assert_eq!(writes.len(), 1);
    let (r, writes) = run_full_move(&mut image, vec![Ok(()), Err(Error::SendFrame)]);
    assert_eq!(r, Err(FullControlMovementError::WritingDecelerationFailed(4, Error::SendFrame)));
    assert_eq!(writes.len(), 2);
    let mut missing = ProcessImage::unavailable(Error::Internal);
    let (r, writes) = run_full_move(&mut missing, vec![]);
    assert_eq!(r, Err(FullControlMovementError::DeviceInUse(Error::Internal)));
    assert!(writes.is_empty());
    let mut disabled = ProcessImage::located(inputs(0, 0), vec![0; 25]);
    let mut motion = Servo::new(Device { id: 4 }).move_position_velocity_acceleration(1, 2, 3, 4, MovementMode::Relative);
    let mut result = None;
    for _ in 0..5 {
        match motion.step(&mut disabled) {
            FullMoveStep::Done(r) => {
                result = Some(r);
                break;
            }
            FullMoveStep::WriteObject { .. } => motion.written(Ok(())),
            FullMoveStep::Cycle => {}
        }
    }
    assert_eq!(result, Some(Err(FullControlMovementError::MovementFailed(MovementError::DriveDisabled(4)))));
}
