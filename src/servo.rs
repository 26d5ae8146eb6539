//! The motion layer of a servo drive: homing, jogging and positioning.
use crate::device::{
    echoes, ready_state, reports, MODE_RETRIES,
    mode_step, unset_control, without_action_bits, Device, Disable, DisablePhase, ModeSwitch,
    OperationMode, SetModeError,
};
use crate::image::{
    control, field_offset, status, with_control, with_le_u32, ControlBit, ImageView, MappedPdo,
    ProcessImage, StatusWordBit,
};
use crate::run::Step;
use vstd::prelude::*;

verus! {

/// Object dictionary index of the profile acceleration.
pub const ACCELERATION_INDEX: u16 = 0x6083;

/// Object dictionary index of the profile deceleration.
pub const DECELERATION_INDEX: u16 = 0x6084;

/// An error returned while homing the servo.
#[derive(Clone, Copy, Debug, PartialEq, Eq)]
pub enum HomingError {
    /// The drive is not enabled for operation.
    DeviceDisabled(usize),
    /// The drive did not take homing mode.
    SetMode(SetModeError),
}

/// An error returned while jogging the servo.
#[derive(Clone, Copy, Debug, PartialEq, Eq)]
pub enum JoggingError {
    /// The drive is not enabled for operation.
    DeviceDisabled(usize),
    /// The drive did not take jog mode.
    SetMode(SetModeError),
}

/// An error returned while moving the servo to a position.
#[derive(Clone, Copy, Debug, PartialEq, Eq)]
pub enum MovementError {
    /// The drive is not enabled for operation.
    DriveDisabled(usize),
    /// The device's image could not be located to write a target.
    Ethercat(ethercrab::error::Error),
    /// The drive did not take profile position mode.
    SetMode(SetModeError),
}

/// An error returned while moving the servo with acceleration and deceleration given.
#[derive(Clone, Copy, Debug, PartialEq, Eq)]
pub enum FullControlMovementError {
    /// Writing the acceleration failed.
    WritingAccelerationFailed(usize, ethercrab::error::Error),
    /// Writing the deceleration failed.
    WritingDecelerationFailed(usize, ethercrab::error::Error),
    /// The move itself failed.
    MovementFailed(MovementError),
    /// The device's image could not be located.
    DeviceInUse(ethercrab::error::Error),
}

/// How a target position is taken.
#[derive(Clone, Copy, Debug, PartialEq, Eq, Structural)]
pub enum MovementMode {
    /// Relative to the current position.
    Relative,
    /// As an absolute position.
    Absolute,
}

/// The direction of a jog.
#[derive(Clone, Copy, Debug, PartialEq, Eq, Structural)]
pub enum JoggingDirection {
    /// Positive direction.
    Positive,
    /// Negative direction.
    Negative,
}

/// A servo drive: a device that is enabled and driven through the motion procedures.
#[derive(Clone, Copy, Debug, PartialEq, Eq, Structural)]
pub struct Servo(pub Device);

/// The current position of the servo: the actual-position input field, as a 32-bit pattern.
pub open spec fn position(v: ImageView) -> u32 {
    crate::image::le_u32_at(v.inputs, field_offset(MappedPdo::Position) as int) as u32
}

impl Servo {
    /// The servo driven through a ready device.
    pub fn new(device: Device) -> (r: Servo)
        ensures
            r.0 == device,
    {
        Servo(device)
    }

    /// The device under the servo.
    pub fn device(&self) -> (r: &Device)
        ensures
            *r == self.0,
    {
        &self.0
    }

    /// The device under the servo, for changing.
    pub fn device_mut(&mut self) -> (r: &mut Device)
        ensures
            *r == old(self).0,
            final(self).0 == *final(r),
    {
        &mut self.0
    }

    /// Reads the current position. Fails when the device's image could not be located.
    pub fn get_position(&self, image: &ProcessImage) -> (r: Result<u32, ethercrab::error::Error>)
        ensures
            image.missing is Some ==> r == Err::<u32, _>(image.missing->Some_0),
            image.missing is None ==> r == Ok::<u32, ethercrab::error::Error>(position(image@)),
    {
        image.get_32(MappedPdo::Position)
    }

    /// The homing procedure; with `always` false a drive that is already homed is not homed
    /// again.
    pub fn home(&self, always: bool) -> (r: Homing)
        ensures
            r == (Homing { id: self.0.id, always, phase: HomingPhase::Start }),
    {
        Homing { id: self.0.id, always, phase: HomingPhase::Start }
    }

    /// The procedure that starts jogging in the positive direction.
    pub fn jog_positive(&self) -> (r: Jog)
        ensures
            r == (Jog { id: self.0.id, direction: JoggingDirection::Positive, phase: JogPhase::Start }),
    {
        Jog { id: self.0.id, direction: JoggingDirection::Positive, phase: JogPhase::Start }
    }

    /// The procedure that starts jogging in the negative direction.
    pub fn jog_negative(&self) -> (r: Jog)
        ensures
            r == (Jog { id: self.0.id, direction: JoggingDirection::Negative, phase: JogPhase::Start }),
    {
        Jog { id: self.0.id, direction: JoggingDirection::Negative, phase: JogPhase::Start }
    }

    /// The procedure that stops jogging.
    pub fn jog_stop(&self) -> (r: JogStop)
        ensures
            r == (JogStop { phase: JogStopPhase::Start }),
    {
        JogStop { phase: JogStopPhase::Start }
    }

    /// The procedure that moves the servo to `target`.
    pub fn move_position(&self, target: i32, movement: MovementMode) -> (r: Move)
        ensures
            r == Move::start(self.0.id, target, movement, None),
    {
        Move { id: self.0.id, target, movement, velocity: None, phase: MovePhase::Start }
    }

    /// The procedure that moves the servo to `target` at profile velocity `velocity`.
    pub fn move_position_velocity(&self, target: i32, velocity: u32, movement: MovementMode) -> (r: Move)
        ensures
            r == Move::start(self.0.id, target, movement, Some(velocity)),
    {
        Move { id: self.0.id, target, movement, velocity: Some(velocity), phase: MovePhase::Start }
    }

    /// The procedure that moves the servo to `target` at profile velocity `velocity`, with
    /// the profile acceleration and deceleration written first.
    pub fn move_position_velocity_acceleration(
        &self,
        target: i32,
        velocity: u32,
        acceleration: u32,
        deceleration: u32,
        movement: MovementMode,
    ) -> (r: FullMove)
        ensures
            r == (FullMove {
                id: self.0.id,
                acceleration,
                deceleration,
                motion: Move::start(self.0.id, target, movement, Some(velocity)),
                phase: FullMovePhase::Start,
            }),
    {
        FullMove {
            id: self.0.id,
            acceleration,
            deceleration,
            motion: Move { id: self.0.id, target, movement, velocity: Some(velocity), phase: MovePhase::Start },
            phase: FullMovePhase::Start,
        }
    }

    /// The procedure that disables the drive.
    pub fn disable(self) -> (r: Disable)
        ensures
            r == (Disable { phase: DisablePhase::Start }),
    {
        self.0.disable()
    }
}

// ---------------------------------------------------------------------------------------
// Homing
/// Where homing stands.
#[derive(Clone, Copy, Debug, PartialEq, Eq, Structural)]
pub enum HomingPhase {
    /// Nothing done yet.
    Start,
    /// Switching to homing mode.
    Mode(ModeSwitch),
    /// Homing started; waiting for the drive to acknowledge.
    Wait,
}

/// The homing procedure: requires operation enabled, switches to homing mode, and unless the
/// drive is already homed and `always` is false, raises the start bit and waits, with no
/// bound, for the drive to acknowledge, then lowers the start bit.
#[derive(Clone, Copy, Debug, PartialEq, Eq, Structural)]
pub struct Homing {
    /// The device.
    pub id: usize,
    /// Home even where the drive is already homed.
    pub always: bool,
    /// Where the procedure stands.
    pub phase: HomingPhase,
}

/// A step of waiting for the homing acknowledgement.
pub open spec fn homing_wait(m: Homing, v: ImageView) -> (Homing, ImageView, Step<Result<(), HomingError>>) {
    if !status(v, StatusWordBit::AckStartRefReached) {
        (Homing { phase: HomingPhase::Wait, ..m }, v, Step::Cycle)
    } else {
        (Homing { phase: HomingPhase::Wait, ..m }, with_control(v, ControlBit::Control4, false), Step::Done(Ok(())))
    }
}

/// A step of switching to homing mode; once the mode is taken, homing goes on in the same
/// step.
pub open spec fn homing_mode(m: Homing, ms: ModeSwitch, v: ImageView) -> (Homing, ImageView, Step<Result<(), HomingError>>) {
    let (ms2, v2, s) = mode_step(ms, v);
    match s {
        Step::Cycle => (Homing { phase: HomingPhase::Mode(ms2), ..m }, v2, Step::Cycle),
        Step::Done(Err(e)) => (m, v2, Step::Done(Err(HomingError::SetMode(e)))),
        Step::Done(Ok(())) => if status(v2, StatusWordBit::DriveHomed) && !m.always {
            (m, v2, Step::Done(Ok(())))
        } else {
            homing_wait(m, with_control(without_action_bits(v2), ControlBit::Control4, true))
        },
    }
}

/// One step of homing.
pub open spec fn homing_step(m: Homing, v: ImageView) -> (Homing, ImageView, Step<Result<(), HomingError>>) {
    match m.phase {
        HomingPhase::Start => if !status(v, StatusWordBit::OperationEnabled) {
            (m, v, Step::Done(Err(HomingError::DeviceDisabled(m.id))))
        } else {
            homing_mode(m, ModeSwitch::start(m.id, OperationMode::Homing), v)
        },
        HomingPhase::Mode(ms) => homing_mode(m, ms, v),
        HomingPhase::Wait => homing_wait(m, v),
    }
}

impl Homing {
    /// Takes one step of homing.
    pub fn step(&mut self, image: &mut ProcessImage) -> (r: Step<Result<(), HomingError>>)
        ensures
            (*final(self), final(image)@, r) == homing_step(*old(self), old(image)@),
    {
        let mut ms = match self.phase {
            HomingPhase::Start => {
                if !ready_state(image) {
                    return Step::Done(Err(HomingError::DeviceDisabled(self.id)));
                }
                ModeSwitch::new(self.id, OperationMode::Homing)
            },
            HomingPhase::Mode(ms) => ms,
            HomingPhase::Wait => {
                return self.wait(image);
            },
        };
        match ms.step(image) {
            Step::Cycle => {
                self.phase = HomingPhase::Mode(ms);
                Step::Cycle
            },
            Step::Done(Err(e)) => Step::Done(Err(HomingError::SetMode(e))),
            Step::Done(Ok(())) => {
                if image.status(StatusWordBit::DriveHomed) && !self.always {
                    Step::Done(Ok(()))
                } else {
                    unset_control(image);
                    image.control(ControlBit::Control4, true);
                    self.wait(image)
                }
            },
        }
    }

    /// Waits for the homing acknowledgement, then lowers the start bit.
    fn wait(&mut self, image: &mut ProcessImage) -> (r: Step<Result<(), HomingError>>)
        ensures
            (*final(self), final(image)@, r) == homing_wait(*old(self), old(image)@),
    {
        self.phase = HomingPhase::Wait;
        if !image.status(StatusWordBit::AckStartRefReached) {
            Step::Cycle
        } else {
            image.control(ControlBit::Control4, false);
            Step::Done(Ok(()))
        }
    }
}


// ---------------------------------------------------------------------------------------
// Jogging
/// Where the start of a jog stands.
#[derive(Clone, Copy, Debug, PartialEq, Eq, Structural)]
pub enum JogPhase {
    /// Nothing done yet.
    Start,
    /// Switching to jog mode.
    Mode(ModeSwitch),
    /// Waiting, with no bound, for a previous motion to complete.
    Settle,
}

/// The procedure that starts a jog: requires operation enabled, switches to jog mode, clears
/// the operation-specific control bits, waits for any previous motion to complete, then
/// raises control bit 4 (positive) or 5 (negative). The drive then moves until stopped.
#[derive(Clone, Copy, Debug, PartialEq, Eq, Structural)]
pub struct Jog {
    /// The device.
    pub id: usize,
    /// The direction.
    pub direction: JoggingDirection,
    /// Where the procedure stands.
    pub phase: JogPhase,
}

/// The control bit that starts a jog in a direction.
pub open spec fn jog_bit(d: JoggingDirection) -> ControlBit {
    match d {
        JoggingDirection::Positive => ControlBit::Control4,
        JoggingDirection::Negative => ControlBit::Control5,
    }
}

/// A step of waiting for the previous motion to complete before jogging.
pub open spec fn jog_settle(m: Jog, v: ImageView) -> (Jog, ImageView, Step<Result<(), JoggingError>>) {
    if !status(v, StatusWordBit::MotionComplete) {
        (Jog { phase: JogPhase::Settle, ..m }, v, Step::Cycle)
    } else {
        (Jog { phase: JogPhase::Settle, ..m }, with_control(v, jog_bit(m.direction), true), Step::Done(Ok(())))
    }
}

/// A step of switching to jog mode.
pub open spec fn jog_mode(m: Jog, ms: ModeSwitch, v: ImageView) -> (Jog, ImageView, Step<Result<(), JoggingError>>) {
    let (ms2, v2, s) = mode_step(ms, v);
    match s {
        Step::Cycle => (Jog { phase: JogPhase::Mode(ms2), ..m }, v2, Step::Cycle),
        Step::Done(Err(e)) => (m, v2, Step::Done(Err(JoggingError::SetMode(e)))),
        Step::Done(Ok(())) => jog_settle(m, without_action_bits(v2)),
    }
}

/// One step of starting a jog.
pub open spec fn jog_step(m: Jog, v: ImageView) -> (Jog, ImageView, Step<Result<(), JoggingError>>) {
    match m.phase {
        JogPhase::Start => if !status(v, StatusWordBit::OperationEnabled) {
            (m, v, Step::Done(Err(JoggingError::DeviceDisabled(m.id))))
        } else {
            jog_mode(m, ModeSwitch::start(m.id, OperationMode::Jog), v)
        },
        JogPhase::Mode(ms) => jog_mode(m, ms, v),
        JogPhase::Settle => jog_settle(m, v),
    }
}

impl Jog {
    /// Takes one step of starting a jog.
    pub fn step(&mut self, image: &mut ProcessImage) -> (r: Step<Result<(), JoggingError>>)
        ensures
            (*final(self), final(image)@, r) == jog_step(*old(self), old(image)@),
    {
        let mut ms = match self.phase {
            JogPhase::Start => {
                if !ready_state(image) {
                    return Step::Done(Err(JoggingError::DeviceDisabled(self.id)));
                }
                ModeSwitch::new(self.id, OperationMode::Jog)
            },
            JogPhase::Mode(ms) => ms,
            JogPhase::Settle => {
                return self.settle(image);
            },
        };
        match ms.step(image) {
            Step::Cycle => {
                self.phase = JogPhase::Mode(ms);
                Step::Cycle
            },
            Step::Done(Err(e)) => Step::Done(Err(JoggingError::SetMode(e))),
            Step::Done(Ok(())) => {
                unset_control(image);
                self.settle(image)
            },
        }
    }

    /// Waits for the previous motion to complete, then raises the direction's bit.
    fn settle(&mut self, image: &mut ProcessImage) -> (r: Step<Result<(), JoggingError>>)
        ensures
            (*final(self), final(image)@, r) == jog_settle(*old(self), old(image)@),
    {
        self.phase = JogPhase::Settle;
        if !image.status(StatusWordBit::MotionComplete) {
            Step::Cycle
        } else {
            let bit = match self.direction {
                JoggingDirection::Positive => ControlBit::Control4,
                JoggingDirection::Negative => ControlBit::Control5,
            };
            image.control(bit, true);
            Step::Done(Ok(()))
        }
    }
}

/// Where stopping a jog stands.
#[derive(Clone, Copy, Debug, PartialEq, Eq, Structural)]
pub enum JogStopPhase {
    /// Nothing done yet.
    Start,
    /// Waiting, with no bound, for the motion to complete.
    Wait,
}

/// The procedure that stops a jog: on a drive that is not enabled for operation it finishes
/// at once, with nothing written; otherwise it clears the operation-specific control bits and
/// waits for the motion to complete.
#[derive(Clone, Copy, Debug, PartialEq, Eq, Structural)]
pub struct JogStop {
    /// Where the procedure stands.
    pub phase: JogStopPhase,
}

/// A step of waiting for a stopped jog to complete.
pub open spec fn jog_stop_wait(v: ImageView) -> (JogStop, ImageView, Step<()>) {
    if !status(v, StatusWordBit::MotionComplete) {
        (JogStop { phase: JogStopPhase::Wait }, v, Step::Cycle)
    } else {
        (JogStop { phase: JogStopPhase::Wait }, v, Step::Done(()))
    }
}

/// One step of stopping a jog.
pub open spec fn jog_stop_step(m: JogStop, v: ImageView) -> (JogStop, ImageView, Step<()>) {
    match m.phase {
        JogStopPhase::Start => if !status(v, StatusWordBit::OperationEnabled) {
            (m, v, Step::Done(()))
        } else {
            jog_stop_wait(without_action_bits(v))
        },
        JogStopPhase::Wait => jog_stop_wait(v),
    }
}

impl JogStop {
    /// Takes one step of stopping a jog.
    pub fn step(&mut self, image: &mut ProcessImage) -> (r: Step<()>)
        ensures
            (*final(self), final(image)@, r) == jog_stop_step(*old(self), old(image)@),
    {
        if let JogStopPhase::Start = self.phase {
            if !ready_state(image) {
                return Step::Done(());
            }
            unset_control(image);
        }
        self.phase = JogStopPhase::Wait;
        if !image.status(StatusWordBit::MotionComplete) {
            Step::Cycle
        } else {
            Step::Done(())
        }
    }
}

// ---------------------------------------------------------------------------------------
// Positioning
/// Where a move stands.
#[derive(Clone, Copy, Debug, PartialEq, Eq, Structural)]
pub enum MovePhase {
    /// Nothing done yet.
    Start,
    /// Switching to profile position mode.
    Mode(ModeSwitch),
    /// Target written; one exchange made for the drive to take it.
    Latch,
    /// New set-point raised; waiting, with no bound, for the drive to acknowledge it.
    Ack,
    /// Waiting, with no bound, for the motion to complete.
    Complete,
}

/// The positioning procedure. With a velocity, the profile velocity field is written first.
/// It requires operation enabled and switches to profile position mode. It clears the
/// operation-specific control bits, raises the relative flag (control bit 6) for a relative
/// move, writes the target into the position field, and exchanges once so that the drive
/// takes the target. It then lowers halt and raises the new set-point bit, waits for the
/// acknowledgement, and waits for the motion to complete, clearing the operation-specific
/// control bits at each exchange.
#[derive(Clone, Copy, Debug, PartialEq, Eq, Structural)]
pub struct Move {
    /// The device.
    pub id: usize,
    /// The target position.
    pub target: i32,
    /// Whether the target is relative or absolute.
    pub movement: MovementMode,
    /// The profile velocity to write first, if any.
    pub velocity: Option<u32>,
    /// Where the procedure stands.
    pub phase: MovePhase,
}

impl Move {
    /// The procedure before its first step.
    pub open spec fn start(id: usize, target: i32, movement: MovementMode, velocity: Option<u32>) -> Move {
        Move { id, target, movement, velocity, phase: MovePhase::Start }
    }
}

/// A step of waiting for the motion to complete.
pub open spec fn move_complete(m: Move, v: ImageView) -> (Move, ImageView, Step<Result<(), MovementError>>) {
    if !status(v, StatusWordBit::MotionComplete) {
        (Move { phase: MovePhase::Complete, ..m }, without_action_bits(v), Step::Cycle)
    } else {
        (Move { phase: MovePhase::Complete, ..m }, v, Step::Done(Ok(())))
    }
}

/// A step of waiting for the set-point acknowledgement.
pub open spec fn move_ack(m: Move, v: ImageView) -> (Move, ImageView, Step<Result<(), MovementError>>) {
    if !status(v, StatusWordBit::AckStartRefReached) {
        (Move { phase: MovePhase::Ack, ..m }, v, Step::Cycle)
    } else {
        move_complete(m, v)
    }
}

/// The image with the operation-specific bits cleared and the relative flag raised for a
/// relative move.
pub open spec fn positioning_flags(v: ImageView, movement: MovementMode) -> ImageView {
    if movement == MovementMode::Relative {
        with_control(without_action_bits(v), ControlBit::Control6, true)
    } else {
        without_action_bits(v)
    }
}

/// The image with a 32-bit value written into an output field.
pub open spec fn with_output_u32(v: ImageView, field: MappedPdo, value: u32) -> ImageView {
    ImageView { outputs: with_le_u32(v.outputs, field_offset(field) as int, value), ..v }
}

/// A step of switching to profile position mode; once the mode is taken, the target is
/// written in the same step.
pub open spec fn move_mode(m: Move, ms: ModeSwitch, v: ImageView) -> (Move, ImageView, Step<Result<(), MovementError>>) {
    let (ms2, v2, s) = mode_step(ms, v);
    match s {
        Step::Cycle => (Move { phase: MovePhase::Mode(ms2), ..m }, v2, Step::Cycle),
        Step::Done(Err(e)) => (m, v2, Step::Done(Err(MovementError::SetMode(e)))),
        Step::Done(Ok(())) => {
            let v3 = positioning_flags(v2, m.movement);
            if v3.missing is Some {
                (m, v3, Step::Done(Err(MovementError::Ethercat(v3.missing->Some_0))))
            } else {
                (
                    Move { phase: MovePhase::Latch, ..m },
                    with_output_u32(v3, MappedPdo::Position, m.target as u32),
                    Step::Cycle,
                )
            }
        },
    }
}

/// One step of a move.
pub open spec fn move_step(m: Move, v: ImageView) -> (Move, ImageView, Step<Result<(), MovementError>>) {
    match m.phase {
        MovePhase::Start => if m.velocity is Some && v.missing is Some {
            (m, v, Step::Done(Err(MovementError::Ethercat(v.missing->Some_0))))
        } else {
            let v1 = match m.velocity {
                Some(vel) => with_output_u32(v, MappedPdo::ProfileVelocity, vel),
                None => v,
            };
            if !status(v1, StatusWordBit::OperationEnabled) {
                (m, v1, Step::Done(Err(MovementError::DriveDisabled(m.id))))
            } else {
                move_mode(m, ModeSwitch::start(m.id, OperationMode::ProfilePosition), v1)
            }
        },
        MovePhase::Mode(ms) => move_mode(m, ms, v),
        MovePhase::Latch => move_ack(
            m,
            with_control(with_control(v, ControlBit::Halt, false), ControlBit::Control4, true),
        ),
        MovePhase::Ack => move_ack(m, v),
        MovePhase::Complete => move_complete(m, v),
    }
}

/// Writes the target position into the position field.
fn set_position(image: &mut ProcessImage, target: i32) -> (r: Result<(), ethercrab::error::Error>)
    ensures
        old(image).missing is Some ==> r == Err::<(), _>(old(image).missing->Some_0) && final(image)@ == old(image)@,
        old(image).missing is None ==> r is Ok && final(image)@ == with_output_u32(old(image)@, MappedPdo::Position, target as u32),
{
    image.set_32(MappedPdo::Position, target as u32)
}

/// Writes the profile velocity into its field.
fn set_profile_velocity(image: &mut ProcessImage, velocity: u32) -> (r: Result<(), ethercrab::error::Error>)
    ensures
        old(image).missing is Some ==> r == Err::<(), _>(old(image).missing->Some_0) && final(image)@ == old(image)@,
        old(image).missing is None ==> r is Ok && final(image)@ == with_output_u32(old(image)@, MappedPdo::ProfileVelocity, velocity),
{
    image.set_32(MappedPdo::ProfileVelocity, velocity)
}

impl Move {
    /// Takes one step of the move.
    pub fn step(&mut self, image: &mut ProcessImage) -> (r: Step<Result<(), MovementError>>)
        ensures
            (*final(self), final(image)@, r) == move_step(*old(self), old(image)@),
    {
        let mut ms = match self.phase {
            MovePhase::Start => {
                if let Some(vel) = self.velocity {
                    if let Err(e) = set_profile_velocity(image, vel) {
                        return Step::Done(Err(MovementError::Ethercat(e)));
                    }
                }
                if !ready_state(image) {
                    return Step::Done(Err(MovementError::DriveDisabled(self.id)));
                }
                ModeSwitch::new(self.id, OperationMode::ProfilePosition)
            },
            MovePhase::Mode(ms) => ms,
            MovePhase::Latch => {
                image.control(ControlBit::Halt, false);
                image.control(ControlBit::Control4, true);
                return self.ack(image);
            },
            MovePhase::Ack => {
                return self.ack(image);
            },
            MovePhase::Complete => {
                return self.complete(image);
            },
        };
        match ms.step(image) {
            Step::Cycle => {
                self.phase = MovePhase::Mode(ms);
                Step::Cycle
            },
            Step::Done(Err(e)) => Step::Done(Err(MovementError::SetMode(e))),
            Step::Done(Ok(())) => {
                unset_control(image);
                if self.movement == MovementMode::Relative {
                    image.control(ControlBit::Control6, true);
                }
                match set_position(image, self.target) {
                    Err(e) => Step::Done(Err(MovementError::Ethercat(e))),
                    Ok(()) => {
                        self.phase = MovePhase::Latch;
                        Step::Cycle
                    },
                }
            },
        }
    }

    /// Waits for the set-point acknowledgement.
    fn ack(&mut self, image: &mut ProcessImage) -> (r: Step<Result<(), MovementError>>)
        ensures
            (*final(self), final(image)@, r) == move_ack(*old(self), old(image)@),
    {
        if !image.status(StatusWordBit::AckStartRefReached) {
            self.phase = MovePhase::Ack;
            Step::Cycle
        } else {
            self.complete(image)
        }
    }

    /// Waits for the motion to complete, clearing the operation-specific control bits at each
    /// exchange.
    fn complete(&mut self, image: &mut ProcessImage) -> (r: Step<Result<(), MovementError>>)
        ensures
            (*final(self), final(image)@, r) == move_complete(*old(self), old(image)@),
    {
        self.phase = MovePhase::Complete;
        if !image.status(StatusWordBit::MotionComplete) {
            unset_control(image);
            Step::Cycle
        } else {
            Step::Done(Ok(()))
        }
    }
}

/// Where a move with acceleration and deceleration stands.
#[derive(Clone, Copy, Debug, PartialEq, Eq)]
pub enum FullMovePhase {
    /// Nothing done yet.
    Start,
    /// The acceleration write was asked for; its outcome is awaited.
    AwaitAcceleration,
    /// The acceleration is written; the deceleration is to be written.
    WriteDeceleration,
    /// The deceleration write was asked for; its outcome is awaited.
    AwaitDeceleration,
    /// Both are written; the move is under way.
    Moving,
    /// A write failed.
    Failed(FullControlMovementError),
}

/// What a move with acceleration and deceleration asks for after one step.
#[derive(Clone, Copy, Debug, PartialEq, Eq)]
pub enum FullMoveStep {
    /// Exchange the process data once, then step again.
    Cycle,
    /// Write `value` to the drive's object dictionary at `index`, `subindex`, then hand the
    /// outcome to [`FullMove::written`] and step again.
    WriteObject { index: u16, subindex: u8, value: u32 },
    /// The procedure is finished, with this result.
    Done(Result<(), FullControlMovementError>),
}

/// The positioning procedure with the profile acceleration and deceleration written to the
/// object dictionary first, in that order; a failed write ends it.
#[derive(Clone, Copy, Debug, PartialEq, Eq)]
pub struct FullMove {
    /// The device.
    pub id: usize,
    /// The profile acceleration.
    pub acceleration: u32,
    /// The profile deceleration.
    pub deceleration: u32,
    /// The move made once both are written.
    pub motion: Move,
    /// Where the procedure stands.
    pub phase: FullMovePhase,
}

/// One step of a move with acceleration and deceleration.
pub open spec fn full_move_step(m: FullMove, v: ImageView) -> (FullMove, ImageView, FullMoveStep) {
    match m.phase {
        FullMovePhase::Start => if v.missing is Some {
            (m, v, FullMoveStep::Done(Err(FullControlMovementError::DeviceInUse(v.missing->Some_0))))
        } else {
            (
                FullMove { phase: FullMovePhase::AwaitAcceleration, ..m },
                v,
                FullMoveStep::WriteObject { index: ACCELERATION_INDEX, subindex: 0, value: m.acceleration },
            )
        },
        FullMovePhase::AwaitAcceleration => (
            m,
            v,
            FullMoveStep::WriteObject { index: ACCELERATION_INDEX, subindex: 0, value: m.acceleration },
        ),
        FullMovePhase::WriteDeceleration | FullMovePhase::AwaitDeceleration => (
            FullMove { phase: FullMovePhase::AwaitDeceleration, ..m },
            v,
            FullMoveStep::WriteObject { index: DECELERATION_INDEX, subindex: 0, value: m.deceleration },
        ),
        FullMovePhase::Moving => {
            let (mv2, v2, s) = move_step(m.motion, v);
            match s {
                Step::Cycle => (FullMove { motion: mv2, ..m }, v2, FullMoveStep::Cycle),
                Step::Done(Ok(())) => (FullMove { motion: mv2, ..m }, v2, FullMoveStep::Done(Ok(()))),
                Step::Done(Err(e)) => (
                    FullMove { motion: mv2, ..m },
                    v2,
                    FullMoveStep::Done(Err(FullControlMovementError::MovementFailed(e))),
                ),
            }
        },
        FullMovePhase::Failed(e) => (m, v, FullMoveStep::Done(Err(e))),
    }
}

/// The procedure once the outcome of an object dictionary write is known.
pub open spec fn full_move_written(m: FullMove, reply: Result<(), ethercrab::error::Error>) -> FullMove {
    match (m.phase, reply) {
        (FullMovePhase::AwaitAcceleration, Ok(())) => FullMove { phase: FullMovePhase::WriteDeceleration, ..m },
        (FullMovePhase::AwaitAcceleration, Err(e)) => FullMove {
            phase: FullMovePhase::Failed(FullControlMovementError::WritingAccelerationFailed(m.id, e)),
            ..m
        },
        (FullMovePhase::AwaitDeceleration, Ok(())) => FullMove { phase: FullMovePhase::Moving, ..m },
        (FullMovePhase::AwaitDeceleration, Err(e)) => FullMove {
            phase: FullMovePhase::Failed(FullControlMovementError::WritingDecelerationFailed(m.id, e)),
            ..m
        },
        _ => m,
    }
}

impl FullMove {
    /// Takes one step of the procedure.
    pub fn step(&mut self, image: &mut ProcessImage) -> (r: FullMoveStep)
        ensures
            (*final(self), final(image)@, r) == full_move_step(*old(self), old(image)@),
    {
        match self.phase {
            FullMovePhase::Start => {
                if let Some(e) = image.missing {
                    return FullMoveStep::Done(Err(FullControlMovementError::DeviceInUse(e)));
                }
                self.phase = FullMovePhase::AwaitAcceleration;
                FullMoveStep::WriteObject { index: ACCELERATION_INDEX, subindex: 0, value: self.acceleration }
            },
            FullMovePhase::AwaitAcceleration => {
                FullMoveStep::WriteObject { index: ACCELERATION_INDEX, subindex: 0, value: self.acceleration }
            },
            FullMovePhase::WriteDeceleration | FullMovePhase::AwaitDeceleration => {
                self.phase = FullMovePhase::AwaitDeceleration;
                FullMoveStep::WriteObject { index: DECELERATION_INDEX, subindex: 0, value: self.deceleration }
            },
            FullMovePhase::Moving => {
                match self.motion.step(image) {
                    Step::Cycle => FullMoveStep::Cycle,
                    Step::Done(Ok(())) => FullMoveStep::Done(Ok(())),
                    Step::Done(Err(e)) => FullMoveStep::Done(Err(FullControlMovementError::MovementFailed(e))),
                }
            },
            FullMovePhase::Failed(e) => FullMoveStep::Done(Err(e)),
        }
    }

    /// Takes the outcome of the object dictionary write last asked for.
    pub fn written(&mut self, reply: Result<(), ethercrab::error::Error>)
        ensures
            *final(self) == full_move_written(*old(self), reply),
    {
        match (self.phase, reply) {
            (FullMovePhase::AwaitAcceleration, Ok(())) => {
                self.phase = FullMovePhase::WriteDeceleration;
            },
            (FullMovePhase::AwaitAcceleration, Err(e)) => {
                self.phase = FullMovePhase::Failed(FullControlMovementError::WritingAccelerationFailed(self.id, e));
            },
            (FullMovePhase::AwaitDeceleration, Ok(())) => {
                self.phase = FullMovePhase::Moving;
            },
            (FullMovePhase::AwaitDeceleration, Err(e)) => {
                self.phase = FullMovePhase::Failed(FullControlMovementError::WritingDecelerationFailed(self.id, e));
            },
            _ => {},
        }
    }
}


// ---------------------------------------------------------------------------------------
// Runs against a drive
/// The homing procedure as a step function.
pub open spec fn homing_fn() -> spec_fn(Homing, ImageView) -> (Homing, ImageView, Step<Result<(), HomingError>>) {
    |m: Homing, v: ImageView| homing_step(m, v)
}

/// The jog procedure as a step function.
pub open spec fn jog_fn() -> spec_fn(Jog, ImageView) -> (Jog, ImageView, Step<Result<(), JoggingError>>) {
    |m: Jog, v: ImageView| jog_step(m, v)
}

/// The positioning procedure as a step function.
pub open spec fn move_fn() -> spec_fn(Move, ImageView) -> (Move, ImageView, Step<Result<(), MovementError>>) {
    |m: Move, v: ImageView| move_step(m, v)
}

/// Homing while the drive does not echo homing mode.
proof fn lemma_homing_mode_stage(m: Homing, ms: ModeSwitch, outputs: Seq<u8>, feed: spec_fn(nat) -> Seq<u8>, k: nat)
    requires
        m.phase == HomingPhase::Mode(ms),
        ms.id == m.id,
        ms.mode == OperationMode::Homing,
        forall|j: nat| !echoes(#[trigger] feed(j), OperationMode::Homing),
    ensures
        crate::run::run(homing_fn(), m, outputs, feed, k, (ms.retries + 1) as nat) == Some((
            Err::<(), HomingError>(HomingError::SetMode(SetModeError(m.id, OperationMode::Homing))),
            (k + ms.retries) as nat,
        )),
    decreases ms.retries,
{
    let (ms2, w, t) = mode_step(ms, crate::run::seen(feed(k), outputs));
    let (m2, v2, s) = homing_step(m, crate::run::seen(feed(k), outputs));
    assert(!echoes(feed(k), ms.mode));
    if ms.retries > 0 {
        assert(s == Step::<Result<(), HomingError>>::Cycle);
        lemma_homing_mode_stage(m2, ms2, v2.outputs, feed, k + 1);
    }
}

/// Homing an enabled drive that never echoes homing mode fails with the mode switch error,
/// naming the device and homing mode, after exactly the mode switch's retry budget of
/// exchanges.
pub proof fn lemma_homing_mode_switch_fails(id: usize, always: bool, outputs: Seq<u8>, feed: spec_fn(nat) -> Seq<u8>)
    requires
        reports(feed(0), StatusWordBit::OperationEnabled),
        forall|j: nat| !echoes(#[trigger] feed(j), OperationMode::Homing),
    ensures
        crate::run::run(homing_fn(), Homing { id, always, phase: HomingPhase::Start }, outputs, feed, 0, (MODE_RETRIES + 1) as nat)
            == Some((
            Err::<(), HomingError>(HomingError::SetMode(SetModeError(id, OperationMode::Homing))),
            MODE_RETRIES as nat,
        )),
{
    let m = Homing { id, always, phase: HomingPhase::Start };
    let ms = ModeSwitch::start(id, OperationMode::Homing);
    let (ms2, w, t) = mode_step(ms, crate::run::seen(feed(0), outputs));
    let (m2, v2, s) = homing_step(m, crate::run::seen(feed(0), outputs));
    assert(!echoes(feed(0), OperationMode::Homing));
    assert(s == Step::<Result<(), HomingError>>::Cycle);
    lemma_homing_mode_stage(m2, ms2, v2.outputs, feed, 1);
}

/// Jogging while the drive does not echo jog mode.
proof fn lemma_jog_mode_stage(m: Jog, ms: ModeSwitch, outputs: Seq<u8>, feed: spec_fn(nat) -> Seq<u8>, k: nat)
    requires
        m.phase == JogPhase::Mode(ms),
        ms.id == m.id,
        ms.mode == OperationMode::Jog,
        forall|j: nat| !echoes(#[trigger] feed(j), OperationMode::Jog),
    ensures
        crate::run::run(jog_fn(), m, outputs, feed, k, (ms.retries + 1) as nat) == Some((
            Err::<(), JoggingError>(JoggingError::SetMode(SetModeError(m.id, OperationMode::Jog))),
            (k + ms.retries) as nat,
        )),
    decreases ms.retries,
{
    let (ms2, w, t) = mode_step(ms, crate::run::seen(feed(k), outputs));
    let (m2, v2, s) = jog_step(m, crate::run::seen(feed(k), outputs));
    assert(!echoes(feed(k), ms.mode));
    if ms.retries > 0 {
        assert(s == Step::<Result<(), JoggingError>>::Cycle);
        lemma_jog_mode_stage(m2, ms2, v2.outputs, feed, k + 1);
    }
}

/// Jogging an enabled drive that never echoes jog mode fails with the mode switch error,
/// naming the device and jog mode, after exactly the mode switch's retry budget of exchanges.
pub proof fn lemma_jog_mode_switch_fails(id: usize, direction: JoggingDirection, outputs: Seq<u8>, feed: spec_fn(nat) -> Seq<u8>)
    requires
        reports(feed(0), StatusWordBit::OperationEnabled),
        forall|j: nat| !echoes(#[trigger] feed(j), OperationMode::Jog),
    ensures
        crate::run::run(jog_fn(), Jog { id, direction, phase: JogPhase::Start }, outputs, feed, 0, (MODE_RETRIES + 1) as nat)
            == Some((
            Err::<(), JoggingError>(JoggingError::SetMode(SetModeError(id, OperationMode::Jog))),
            MODE_RETRIES as nat,
        )),
{
    let m = Jog { id, direction, phase: JogPhase::Start };
    let ms = ModeSwitch::start(id, OperationMode::Jog);
    let (ms2, w, t) = mode_step(ms, crate::run::seen(feed(0), outputs));
    let (m2, v2, s) = jog_step(m, crate::run::seen(feed(0), outputs));
    assert(!echoes(feed(0), OperationMode::Jog));
    assert(s == Step::<Result<(), JoggingError>>::Cycle);
    lemma_jog_mode_stage(m2, ms2, v2.outputs, feed, 1);
}

/// Positioning while the drive does not echo profile position mode.
proof fn lemma_move_mode_stage(m: Move, ms: ModeSwitch, outputs: Seq<u8>, feed: spec_fn(nat) -> Seq<u8>, k: nat)
    requires
        m.phase == MovePhase::Mode(ms),
        ms.id == m.id,
        ms.mode == OperationMode::ProfilePosition,
        forall|j: nat| !echoes(#[trigger] feed(j), OperationMode::ProfilePosition),
    ensures
        crate::run::run(move_fn(), m, outputs, feed, k, (ms.retries + 1) as nat) == Some((
            Err::<(), MovementError>(MovementError::SetMode(SetModeError(m.id, OperationMode::ProfilePosition))),
            (k + ms.retries) as nat,
        )),
    decreases ms.retries,
{
    let (ms2, w, t) = mode_step(ms, crate::run::seen(feed(k), outputs));
    let (m2, v2, s) = move_step(m, crate::run::seen(feed(k), outputs));
    assert(!echoes(feed(k), ms.mode));
    if ms.retries > 0 {
        assert(s == Step::<Result<(), MovementError>>::Cycle);
        lemma_move_mode_stage(m2, ms2, v2.outputs, feed, k + 1);
    }
}

/// Moving an enabled drive that never echoes profile position mode, with or without a
/// velocity, fails with the mode switch error, naming the device and profile position mode,
/// after exactly the mode switch's retry budget of exchanges.
pub proof fn lemma_move_mode_switch_fails(
    id: usize,
    target: i32,
    movement: MovementMode,
    velocity: Option<u32>,
    outputs: Seq<u8>,
    feed: spec_fn(nat) -> Seq<u8>,
)
    requires
        reports(feed(0), StatusWordBit::OperationEnabled),
        forall|j: nat| !echoes(#[trigger] feed(j), OperationMode::ProfilePosition),
    ensures
        crate::run::run(move_fn(), Move::start(id, target, movement, velocity), outputs, feed, 0, (MODE_RETRIES + 1) as nat)
            == Some((
            Err::<(), MovementError>(MovementError::SetMode(SetModeError(id, OperationMode::ProfilePosition))),
            MODE_RETRIES as nat,
        )),
{
    let m = Move::start(id, target, movement, velocity);
    let v0 = crate::run::seen(feed(0), outputs);
    let v1 = match velocity {
        Some(vel) => with_output_u32(v0, MappedPdo::ProfileVelocity, vel),
        None => v0,
    };
    assert(status(v1, StatusWordBit::OperationEnabled));
    let ms = ModeSwitch::start(id, OperationMode::ProfilePosition);
    let (ms2, w, t) = mode_step(ms, v1);
    let (m2, v2, s) = move_step(m, v0);
    assert(!echoes(feed(0), OperationMode::ProfilePosition));
    assert(s == Step::<Result<(), MovementError>>::Cycle);
    lemma_move_mode_stage(m2, ms2, v2.outputs, feed, 1);
}

/// Setting or clearing one control bit leaves every control bit at another position within
/// its byte as it was.
pub proof fn lemma_other_control_bit(v: ImageView, a: ControlBit, b: ControlBit, value: bool)
    requires
        crate::image::control_bit_number(a) % 8 != crate::image::control_bit_number(b) % 8,
    ensures
        control(with_control(v, a, value), b) == control(v, b),
{
    let s = v.outputs;
    if v.missing is None && s.len() > 0 {
        let na = crate::image::control_bit_number(a);
        let nb = crate::image::control_bit_number(b);
        let i = crate::image::byte_index(s.len(), na, 0);
        let j = crate::image::byte_index(s.len(), nb, 0);
        let x = s[i];
        let ma = crate::image::bit_mask(na);
        let mb = crate::image::bit_mask(nb);
        if i == j {
            assert((x | ma) & mb == x & mb && (x & !ma) & mb == x & mb) by (bit_vector)
                requires
                    ma == 1u8 << (na % 8),
                    mb == 1u8 << (nb % 8),
                    na % 8 != nb % 8,
            ;
        }
    }
}

/// The step of a move that finishes its mode switch writes the target into the position
/// field and asks for the exchange that hands the target to the drive: the outputs sent with
/// that exchange hold the target and have the relative flag (control bit 6) set for a
/// relative move and clear for an absolute one. The next step raises the new set-point bit;
/// where the device was located and it still waits for the drive's acknowledgement, the
/// outputs it sends keep the relative flag as it was.
pub proof fn lemma_relative_flag_at_latch(m: Move, v: ImageView, w: ImageView)
    requires
        v.outputs.len() >= field_offset(MappedPdo::Position) + 4,
    ensures
        ({
            let (m2, v2, s) = move_step(m, v);
            m.phase is Mode && m2.phase == MovePhase::Latch ==> {
                &&& s == Step::<Result<(), MovementError>>::Cycle
                &&& control(v2, ControlBit::Control6) == (m.movement == MovementMode::Relative)
                &&& crate::image::le_u32_at(v2.outputs, field_offset(MappedPdo::Position) as int) == m.target as u32
            }
        }),
        ({
            let (m3, w3, s3) = move_step(Move { phase: MovePhase::Latch, ..m }, w);
            w.missing is None && w.outputs.len() > 0 && m3.phase == MovePhase::Ack ==> {
                &&& s3 == Step::<Result<(), MovementError>>::Cycle
                &&& control(w3, ControlBit::Control4)
                &&& control(w3, ControlBit::Control6) == control(w, ControlBit::Control6)
            }
        }),
{
    let (m2, v2, s) = move_step(m, v);
    if m.phase is Mode && m2.phase == MovePhase::Latch {
        let ms = m.phase->Mode_0;
        let (ms2, u, t) = mode_step(ms, v);
        let u3 = crate::servo::positioning_flags(u, m.movement);
        let u1 = without_action_bits(u);
        let u0 = with_control(with_control(with_control(u, ControlBit::Control4, false), ControlBit::Control5, false), ControlBit::Control6, false);
        assert(u.outputs.len() == v.outputs.len());
        assert(!control(u0, ControlBit::Control6)) by {
            crate::image::lemma_set_then_get(
                with_control(with_control(u, ControlBit::Control4, false), ControlBit::Control5, false).outputs,
                6,
                0,
            );
        }
        lemma_other_control_bit(u0, ControlBit::Control9, ControlBit::Control6, false);
        if m.movement == MovementMode::Relative {
            crate::image::lemma_set_then_get(u1.outputs, 6, 0);
        }
        assert(control(u3, ControlBit::Control6) == (m.movement == MovementMode::Relative));
        let pos = field_offset(MappedPdo::Position) as int;
        assert(v2.outputs == with_le_u32(u3.outputs, pos, m.target as u32));
        assert(v2.outputs[0] == u3.outputs[0]);
        crate::image::lemma_le_u32_round_trip(u3.outputs, pos, m.target as u32);
    }
    let w1 = with_control(w, ControlBit::Halt, false);
    let w2 = with_control(w1, ControlBit::Control4, true);
    lemma_other_control_bit(w, ControlBit::Halt, ControlBit::Control6, false);
    lemma_other_control_bit(w1, ControlBit::Control4, ControlBit::Control6, true);
    if w.missing is None && w.outputs.len() > 0 {
        crate::image::lemma_set_then_get(w1.outputs, 4, 0);
    }
}

} // verus!
