//! The drive handle, its status, and the reset, enable, mode switch and disable handshakes.
use crate::image::{
    input_byte, status, with_control, with_output_byte, ControlBit, ImageView, MappedPdo,
    ProcessImage, StatusWordBit,
};
use crate::run::Step;
use vstd::prelude::*;

verus! {

/// Exchanges that a reset waits for the fault and warning bits to clear.
pub const RESET_RETRIES: u32 = 1000;

/// Exchanges that enabling may take, both of its stages together.
pub const ENABLE_BUDGET: u32 = 1_000_000;

/// Exchanges that a mode switch waits for the drive to echo the new mode.
pub const MODE_RETRIES: u32 = 100;

/// Exchanges that disabling waits for operation to be disabled.
pub const DISABLE_RETRIES: u32 = 1000;

/// An error returned while resetting the device.
#[derive(Clone, Copy, Debug, PartialEq, Eq)]
pub enum ResetError {
    /// Both the fault and the warning bit stayed set.
    ResetFailed(usize),
    /// The warning bit stayed set.
    ResetFailedWarning(usize),
    /// The fault bit stayed set.
    ResetFailedFault(usize),
    /// The device's image could not be located.
    DeviceInUse(usize, ethercrab::error::Error),
}

impl ResetError {
    /// The device the error is about.
    pub fn device(&self) -> (r: usize)
        ensures
            r == match *self {
                ResetError::ResetFailed(d) => d,
                ResetError::ResetFailedWarning(d) => d,
                ResetError::ResetFailedFault(d) => d,
                ResetError::DeviceInUse(d, _) => d,
            },
    {
        match self {
            ResetError::ResetFailed(d) => *d,
            ResetError::ResetFailedWarning(d) => *d,
            ResetError::ResetFailedFault(d) => *d,
            ResetError::DeviceInUse(d, _) => *d,
        }
    }
}

/// An error returned while enabling a device.
#[derive(Clone, Copy, Debug, PartialEq, Eq)]
pub enum EnableError {
    /// The reset before enabling failed.
    ResetFailed(ResetError),
    /// The drive did not reach operation within the exchange budget.
    Timeout(usize),
    /// The drive left the enable sequence without being operational.
    Failed(usize),
}

/// The mode of operation, as the byte written to and echoed by the drive.
#[derive(Clone, Copy, Debug, PartialEq, Eq, Structural)]
pub enum OperationMode {
    /// No mode.
    NotSet,
    /// Profile position mode.
    ProfilePosition,
    /// Velocity mode.
    Velocity,
    /// Profile velocity mode.
    ProfileVelocity,
    /// Torque mode.
    Torque,
    /// Homing mode.
    Homing,
    /// Interpolated position mode.
    InterpolatedPosition,
    /// Cyclic synchronous position mode.
    CyclingSyncPosition,
    /// Cyclic synchronous velocity mode.
    CyclingSyncVelocity,
    /// Cyclic synchronous torque mode.
    CyclingSyncTorque,
    /// Jog mode.
    Jog,
}

/// The byte that stands for a mode of operation.
pub open spec fn mode_byte(m: OperationMode) -> u8 {
    match m {
        OperationMode::NotSet => 0,
        OperationMode::ProfilePosition => 1,
        OperationMode::Velocity => 2,
        OperationMode::ProfileVelocity => 3,
        OperationMode::Torque => 4,
        OperationMode::Homing => 6,
        OperationMode::InterpolatedPosition => 7,
        OperationMode::CyclingSyncPosition => 8,
        OperationMode::CyclingSyncVelocity => 9,
        OperationMode::CyclingSyncTorque => 10,
        OperationMode::Jog => 253,
    }
}

impl OperationMode {
    /// The byte that stands for the mode.
    pub fn byte(&self) -> (r: u8)
        ensures
            r == mode_byte(*self),
    {
        match self {
            OperationMode::NotSet => 0,
            OperationMode::ProfilePosition => 1,
            OperationMode::Velocity => 2,
            OperationMode::ProfileVelocity => 3,
            OperationMode::Torque => 4,
            OperationMode::Homing => 6,
            OperationMode::InterpolatedPosition => 7,
            OperationMode::CyclingSyncPosition => 8,
            OperationMode::CyclingSyncVelocity => 9,
            OperationMode::CyclingSyncTorque => 10,
            OperationMode::Jog => 253,
        }
    }
}

/// The drive did not take the requested mode: the device, and the mode requested.
#[derive(Clone, Copy, Debug, PartialEq, Eq, Structural)]
pub struct SetModeError(pub usize, pub OperationMode);

/// The error status of the device.
#[derive(Clone, Copy, Debug, PartialEq, Eq, Structural)]
pub enum DeviceError {
    /// The fault bit is set.
    Fault,
    /// The warning bit is set.
    Warning,
    /// Both the fault and the warning bit are set.
    FaultAndWarning,
    /// Neither the fault nor the warning bit is set.
    NoFault,
}

/// A timeout happened.
#[derive(Clone, Copy, Debug, PartialEq, Eq, Structural)]
pub struct Timeout;

/// The error status that the device reports.
pub open spec fn device_status(v: ImageView) -> DeviceError {
    match (status(v, StatusWordBit::Fault), status(v, StatusWordBit::Warning)) {
        (false, false) => DeviceError::NoFault,
        (false, true) => DeviceError::Warning,
        (true, false) => DeviceError::Fault,
        (true, true) => DeviceError::FaultAndWarning,
    }
}

/// The image with the operation-specific control bits (4, 5, 6 and 9) cleared.
pub open spec fn without_action_bits(v: ImageView) -> ImageView {
    with_control(
        with_control(
            with_control(with_control(v, ControlBit::Control4, false), ControlBit::Control5, false),
            ControlBit::Control6,
            false,
        ),
        ControlBit::Control9,
        false,
    )
}

/// Clears the operation-specific control bits.
pub fn unset_control(image: &mut ProcessImage)
    ensures
        final(image)@ == without_action_bits(old(image)@),
{
    image.control(ControlBit::Control4, false);
    image.control(ControlBit::Control5, false);
    image.control(ControlBit::Control6, false);
    image.control(ControlBit::Control9, false);
}

/// A handle on one drive of the session, by its index in the session's device group.
#[derive(Clone, Copy, Debug, PartialEq, Eq, Structural)]
pub struct Device {
    /// The index of the device.
    pub id: usize,
}

impl Device {
    /// The procedure that resets and enables the device; it finishes with the ready device.
    pub fn new(device_number: usize) -> (r: Enable)
        ensures
            r == Enable::start(device_number),
    {
        Enable {
            id: device_number,
            phase: EnablePhase::Resetting(Reset { id: device_number, phase: ResetPhase::Start }),
            budget: ENABLE_BUDGET,
        }
    }

    /// The procedure that resets the device.
    pub fn reset(&self) -> (r: Reset)
        ensures
            r == (Reset { id: self.id, phase: ResetPhase::Start }),
    {
        Reset { id: self.id, phase: ResetPhase::Start }
    }

    /// The procedure that disables the device.
    pub fn disable(self) -> (r: Disable)
        ensures
            r == (Disable { phase: DisablePhase::Start }),
    {
        Disable { phase: DisablePhase::Start }
    }

    /// Reads the fault and warning bits of the device.
    pub fn get_error(&self, image: &ProcessImage) -> (r: DeviceError)
        ensures
            r == device_status(image@),
    {
        match (image.status(StatusWordBit::Fault), image.status(StatusWordBit::Warning)) {
            (false, false) => DeviceError::NoFault,
            (false, true) => DeviceError::Warning,
            (true, false) => DeviceError::Fault,
            (true, true) => DeviceError::FaultAndWarning,
        }
    }

    /// Reads two input bytes from `byte` on: the first is the low byte, the next the high
    /// byte. Fails when the device's image could not be located.
    pub fn get_16(&self, image: &ProcessImage, byte: u8) -> (r: Result<u16, ethercrab::error::Error>)
        ensures
            image.missing is Some ==> r == Err::<u16, _>(image.missing->Some_0),
            image.missing is None ==> r == Ok::<u16, ethercrab::error::Error>(
                crate::image::le_u16_at(image@.inputs, byte as int) as u16,
            ),
    {
        image.get_16(byte)
    }
}

/// Whether the device reports operation enabled.
pub fn ready_state(image: &ProcessImage) -> (r: bool)
    ensures
        r == status(image@, StatusWordBit::OperationEnabled),
{
    image.status(StatusWordBit::OperationEnabled)
}

// ---------------------------------------------------------------------------------------
// Reset
/// Where a reset stands.
#[derive(Clone, Copy, Debug, PartialEq, Eq, Structural)]
pub enum ResetPhase {
    /// Nothing done yet.
    Start,
    /// Outputs cleared; waiting for the fault and warning bits to clear, with `retries`
    /// exchanges left. `toggled` says that the fault-reset bit was raised before the last
    /// exchange and is to be lowered.
    Poll { retries: u32, toggled: bool },
}

/// The reset procedure: clear every output byte, exchange once, then toggle the fault-reset
/// bit once per exchange until neither the fault nor the warning bit is set, for at most
/// [`RESET_RETRIES`] exchanges.
#[derive(Clone, Copy, Debug, PartialEq, Eq, Structural)]
pub struct Reset {
    /// The device.
    pub id: usize,
    /// Where the procedure stands.
    pub phase: ResetPhase,
}

/// The result of a reset, from the fault and warning bits at its end.
pub open spec fn reset_outcome(id: usize, v: ImageView) -> Result<(), ResetError> {
    match (status(v, StatusWordBit::Fault), status(v, StatusWordBit::Warning)) {
        (false, false) => Ok(()),
        (false, true) => Err(ResetError::ResetFailedWarning(id)),
        (true, false) => Err(ResetError::ResetFailedFault(id)),
        (true, true) => Err(ResetError::ResetFailed(id)),
    }
}

/// The image with every output byte cleared.
pub open spec fn cleared(v: ImageView) -> ImageView {
    ImageView { outputs: Seq::new(v.outputs.len(), |i: int| 0u8), ..v }
}

/// One step of a reset.
pub open spec fn reset_step(m: Reset, v: ImageView) -> (Reset, ImageView, Step<Result<(), ResetError>>) {
    match m.phase {
        ResetPhase::Start => if v.missing is Some {
            (m, v, Step::Done(Err(ResetError::DeviceInUse(m.id, v.missing->Some_0))))
        } else {
            (
                Reset { phase: ResetPhase::Poll { retries: RESET_RETRIES, toggled: false }, ..m },
                cleared(v),
                Step::Cycle,
            )
        },
        ResetPhase::Poll { retries, toggled } => {
            let v1 = if toggled {
                with_control(v, ControlBit::FaultReset, false)
            } else {
                v
            };
            if device_status(v1) != DeviceError::NoFault && retries > 0 {
                (
                    Reset {
                        phase: ResetPhase::Poll { retries: (retries - 1) as u32, toggled: true },
                        ..m
                    },
                    with_control(v1, ControlBit::FaultReset, true),
                    Step::Cycle,
                )
            } else {
                (m, v1, Step::Done(reset_outcome(m.id, v1)))
            }
        },
    }
}

impl Reset {
    /// Takes one step: reads the image, updates its outputs, and says whether to exchange
    /// once more or what the reset gave.
    pub fn step(&mut self, image: &mut ProcessImage) -> (r: Step<Result<(), ResetError>>)
        ensures
            (*final(self), final(image)@, r) == reset_step(*old(self), old(image)@),
    {
        match self.phase {
            ResetPhase::Start => {
                match image.clear_outputs() {
                    Err(e) => Step::Done(Err(ResetError::DeviceInUse(self.id, e))),
                    Ok(()) => {
                        self.phase = ResetPhase::Poll { retries: RESET_RETRIES, toggled: false };
                        Step::Cycle
                    },
                }
            },
            ResetPhase::Poll { retries, toggled } => {
                if toggled {
                    image.control(ControlBit::FaultReset, false);
                }
                let device = Device { id: self.id };
                if device.get_error(image) != DeviceError::NoFault && retries > 0 {
                    self.phase = ResetPhase::Poll { retries: retries - 1, toggled: true };
                    image.control(ControlBit::FaultReset, true);
                    Step::Cycle
                } else {
                    let fault = image.status(StatusWordBit::Fault);
                    let warning = image.status(StatusWordBit::Warning);
                    Step::Done(
                        match (fault, warning) {
                            (false, false) => Ok(()),
                            (false, true) => Err(ResetError::ResetFailedWarning(self.id)),
                            (true, false) => Err(ResetError::ResetFailedFault(self.id)),
                            (true, true) => Err(ResetError::ResetFailed(self.id)),
                        },
                    )
                }
            },
        }
    }
}


// ---------------------------------------------------------------------------------------
// Enable
/// Where enabling stands.
#[derive(Clone, Copy, Debug, PartialEq, Eq, Structural)]
pub enum EnablePhase {
    /// Resetting the device first.
    Resetting(Reset),
    /// Raising quick stop and enable voltage until the drive reports voltage enabled and
    /// quick stop.
    Voltage,
    /// Raising enable operation and switch on until the drive reports operation enabled and
    /// switched on.
    Operation,
}

/// The enable procedure: reset the device, then drive the enable handshake within a budget
/// of [`ENABLE_BUDGET`] exchanges shared by its two stages.
#[derive(Clone, Copy, Debug, PartialEq, Eq, Structural)]
pub struct Enable {
    /// The device.
    pub id: usize,
    /// Where the procedure stands.
    pub phase: EnablePhase,
    /// Exchanges left in the budget.
    pub budget: u32,
}

impl Enable {
    /// The procedure before its first step.
    pub open spec fn start(id: usize) -> Enable {
        Enable {
            id,
            phase: EnablePhase::Resetting(Reset { id, phase: ResetPhase::Start }),
            budget: ENABLE_BUDGET,
        }
    }
}

/// How enabling ends once both stages are over.
pub open spec fn enable_outcome(id: usize, budget: u32, v: ImageView) -> Result<Device, EnableError> {
    if status(v, StatusWordBit::VoltageEnabled) && status(v, StatusWordBit::QuickStop) && status(
        v,
        StatusWordBit::OperationEnabled,
    ) {
        Ok(Device { id })
    } else if budget == 0 {
        Err(EnableError::Timeout(id))
    } else {
        Err(EnableError::Failed(id))
    }
}

/// A step of the second stage of enabling.
pub open spec fn operation_step(id: usize, budget: u32, v: ImageView) -> (Enable, ImageView, Step<Result<Device, EnableError>>) {
    if !(status(v, StatusWordBit::OperationEnabled) && status(v, StatusWordBit::SwitchedOn))
        && budget > 0 {
        (
            Enable { id, phase: EnablePhase::Operation, budget: (budget - 1) as u32 },
            with_control(
                with_control(v, ControlBit::EnableOperation, true),
                ControlBit::SwitchOn,
                true,
            ),
            Step::Cycle,
        )
    } else {
        (
            Enable { id, phase: EnablePhase::Operation, budget },
            v,
            Step::Done(enable_outcome(id, budget, v)),
        )
    }
}

/// A step of the first stage of enabling; once it is over, the second stage goes on in the
/// same step.
pub open spec fn voltage_step(id: usize, budget: u32, v: ImageView) -> (Enable, ImageView, Step<Result<Device, EnableError>>) {
    if !(status(v, StatusWordBit::VoltageEnabled) && status(v, StatusWordBit::QuickStop))
        && budget > 0 {
        (
            Enable { id, phase: EnablePhase::Voltage, budget: (budget - 1) as u32 },
            with_control(
                with_control(v, ControlBit::QuickStop, true),
                ControlBit::EnableVoltage,
                true,
            ),
            Step::Cycle,
        )
    } else {
        operation_step(id, budget, v)
    }
}

/// One step of enabling.
pub open spec fn enable_step(m: Enable, v: ImageView) -> (Enable, ImageView, Step<Result<Device, EnableError>>) {
    match m.phase {
        EnablePhase::Resetting(r) => {
            let (r2, v2, s) = reset_step(r, v);
            match s {
                Step::Cycle => (Enable { phase: EnablePhase::Resetting(r2), ..m }, v2, Step::Cycle),
                Step::Done(Err(e)) => (m, v2, Step::Done(Err(EnableError::ResetFailed(e)))),
                Step::Done(Ok(())) => voltage_step(m.id, m.budget, v2),
            }
        },
        EnablePhase::Voltage => voltage_step(m.id, m.budget, v),
        EnablePhase::Operation => operation_step(m.id, m.budget, v),
    }
}

impl Enable {
    /// Takes one step of enabling.
    pub fn step(&mut self, image: &mut ProcessImage) -> (r: Step<Result<Device, EnableError>>)
        ensures
            (*final(self), final(image)@, r) == enable_step(*old(self), old(image)@),
    {
        match self.phase {
            EnablePhase::Resetting(mut reset) => {
                match reset.step(image) {
                    Step::Cycle => {
                        self.phase = EnablePhase::Resetting(reset);
                        return Step::Cycle;
                    },
                    Step::Done(Err(e)) => {
                        return Step::Done(Err(EnableError::ResetFailed(e)));
                    },
                    Step::Done(Ok(())) => {},
                }
                self.phase = EnablePhase::Voltage;
            },
            _ => {},
        }
        if let EnablePhase::Voltage = self.phase {
            if !(image.status(StatusWordBit::VoltageEnabled) && image.status(
                StatusWordBit::QuickStop,
            )) && self.budget > 0 {
                image.control(ControlBit::QuickStop, true);
                image.control(ControlBit::EnableVoltage, true);
                self.budget = self.budget - 1;
                return Step::Cycle;
            }
            self.phase = EnablePhase::Operation;
        }
        if !(image.status(StatusWordBit::OperationEnabled) && image.status(StatusWordBit::SwitchedOn))
            && self.budget > 0 {
            image.control(ControlBit::EnableOperation, true);
            image.control(ControlBit::SwitchOn, true);
            self.budget = self.budget - 1;
            return Step::Cycle;
        }
        if image.status(StatusWordBit::VoltageEnabled) && image.status(StatusWordBit::QuickStop)
            && image.status(StatusWordBit::OperationEnabled) {
            Step::Done(Ok(Device { id: self.id }))
        } else if self.budget == 0 {
            Step::Done(Err(EnableError::Timeout(self.id)))
        } else {
            Step::Done(Err(EnableError::Failed(self.id)))
        }
    }
}

// ---------------------------------------------------------------------------------------
// Mode switch
/// The mode switch procedure: write the mode byte and clear the operation-specific control
/// bits, then wait for the drive to echo the mode, for at most [`MODE_RETRIES`] exchanges.
#[derive(Clone, Copy, Debug, PartialEq, Eq, Structural)]
pub struct ModeSwitch {
    /// The device.
    pub id: usize,
    /// The mode requested.
    pub mode: OperationMode,
    /// Exchanges left.
    pub retries: u32,
}

impl ModeSwitch {
    /// The procedure before its first step.
    pub open spec fn start(id: usize, mode: OperationMode) -> ModeSwitch {
        ModeSwitch { id, mode, retries: MODE_RETRIES }
    }

    /// The procedure that switches device `id` to `mode`.
    pub fn new(id: usize, mode: OperationMode) -> (r: ModeSwitch)
        ensures
            r == ModeSwitch::start(id, mode),
    {
        ModeSwitch { id, mode, retries: MODE_RETRIES }
    }
}

/// The image with the mode requested and the operation-specific control bits cleared.
pub open spec fn requesting_mode(v: ImageView, mode: OperationMode) -> ImageView {
    without_action_bits(
        with_output_byte(v, crate::image::field_offset(MappedPdo::OperationMode), mode_byte(mode)),
    )
}

/// One step of a mode switch.
pub open spec fn mode_step(m: ModeSwitch, v: ImageView) -> (ModeSwitch, ImageView, Step<Result<(), SetModeError>>) {
    let v1 = requesting_mode(v, m.mode);
    if input_byte(v1, crate::image::field_offset(MappedPdo::OperationMode)) == Some(mode_byte(m.mode)) {
        (m, v1, Step::Done(Ok(())))
    } else if m.retries > 0 {
        (ModeSwitch { retries: (m.retries - 1) as u32, ..m }, v1, Step::Cycle)
    } else {
        (m, v1, Step::Done(Err(SetModeError(m.id, m.mode))))
    }
}

impl ModeSwitch {
    /// Takes one step of the mode switch.
    pub fn step(&mut self, image: &mut ProcessImage) -> (r: Step<Result<(), SetModeError>>)
        ensures
            (*final(self), final(image)@, r) == mode_step(*old(self), old(image)@),
    {
        let want = self.mode.byte();
        image.set_output_byte(MappedPdo::OperationMode, want);
        unset_control(image);
        let echo = image.input_byte(MappedPdo::OperationMode);
        if echo == Some(want) {
            Step::Done(Ok(()))
        } else if self.retries > 0 {
            self.retries = self.retries - 1;
            Step::Cycle
        } else {
            Step::Done(Err(SetModeError(self.id, self.mode)))
        }
    }
}

// ---------------------------------------------------------------------------------------
// Disable
/// Where disabling stands.
#[derive(Clone, Copy, Debug, PartialEq, Eq, Structural)]
pub enum DisablePhase {
    /// Nothing done yet.
    Start,
    /// Enable operation and switch on lowered, one exchange made.
    Lowered,
    /// Quick stop and enable voltage lowered; waiting for operation to be disabled, with
    /// `retries` exchanges left.
    Poll { retries: u32 },
}

/// The disable procedure: lower enable operation and switch on, exchange once, lower quick
/// stop and enable voltage, then wait for the drive to leave operation, for at most
/// [`DISABLE_RETRIES`] exchanges.
#[derive(Clone, Copy, Debug, PartialEq, Eq, Structural)]
pub struct Disable {
    /// Where the procedure stands.
    pub phase: DisablePhase,
}

/// A step of the waiting stage of disabling.
pub open spec fn disable_poll(retries: u32, v: ImageView) -> (Disable, ImageView, Step<Result<(), Timeout>>) {
    if status(v, StatusWordBit::OperationEnabled) && retries > 0 {
        (Disable { phase: DisablePhase::Poll { retries: (retries - 1) as u32 } }, v, Step::Cycle)
    } else if status(v, StatusWordBit::OperationEnabled) {
        (Disable { phase: DisablePhase::Poll { retries } }, v, Step::Done(Err(Timeout)))
    } else {
        (Disable { phase: DisablePhase::Poll { retries } }, v, Step::Done(Ok(())))
    }
}

/// One step of disabling.
pub open spec fn disable_step(m: Disable, v: ImageView) -> (Disable, ImageView, Step<Result<(), Timeout>>) {
    match m.phase {
        DisablePhase::Start => (
            Disable { phase: DisablePhase::Lowered },
            with_control(
                with_control(v, ControlBit::EnableOperation, false),
                ControlBit::SwitchOn,
                false,
            ),
            Step::Cycle,
        ),
        DisablePhase::Lowered => disable_poll(
            DISABLE_RETRIES,
            with_control(with_control(v, ControlBit::QuickStop, false), ControlBit::EnableVoltage, false),
        ),
        DisablePhase::Poll { retries } => disable_poll(retries, v),
    }
}

impl Disable {
    /// Takes one step of disabling.
    pub fn step(&mut self, image: &mut ProcessImage) -> (r: Step<Result<(), Timeout>>)
        ensures
            (*final(self), final(image)@, r) == disable_step(*old(self), old(image)@),
    {
        let retries = match self.phase {
            DisablePhase::Start => {
                image.control(ControlBit::EnableOperation, false);
                image.control(ControlBit::SwitchOn, false);
                self.phase = DisablePhase::Lowered;
                return Step::Cycle;
            },
            DisablePhase::Lowered => {
                image.control(ControlBit::QuickStop, false);
                image.control(ControlBit::EnableVoltage, false);
                DISABLE_RETRIES
            },
            DisablePhase::Poll { retries } => retries,
        };
        let enabled = image.status(StatusWordBit::OperationEnabled);
        if enabled && retries > 0 {
            self.phase = DisablePhase::Poll { retries: retries - 1 };
            Step::Cycle
        } else {
            self.phase = DisablePhase::Poll { retries };
            if enabled {
                Step::Done(Err(Timeout))
            } else {
                Step::Done(Ok(()))
            }
        }
    }
}


// ---------------------------------------------------------------------------------------
// Runs against a drive
/// Whether a status word bit is set in the inputs that a drive sends.
pub open spec fn reports(inputs: Seq<u8>, b: StatusWordBit) -> bool {
    crate::image::bit_is_set(inputs, crate::image::status_bit_number(b), 0)
}

/// Whether a drive's inputs report neither a fault nor a warning.
pub open spec fn healthy(inputs: Seq<u8>) -> bool {
    !reports(inputs, StatusWordBit::Fault) && !reports(inputs, StatusWordBit::Warning)
}

/// The reset procedure as a step function.
pub open spec fn reset_fn() -> spec_fn(Reset, ImageView) -> (Reset, ImageView, Step<Result<(), ResetError>>) {
    |m: Reset, v: ImageView| reset_step(m, v)
}

/// The enable procedure as a step function.
pub open spec fn enable_fn() -> spec_fn(Enable, ImageView) -> (Enable, ImageView, Step<Result<Device, EnableError>>) {
    |m: Enable, v: ImageView| enable_step(m, v)
}

/// The mode switch procedure as a step function.
pub open spec fn mode_fn() -> spec_fn(ModeSwitch, ImageView) -> (ModeSwitch, ImageView, Step<Result<(), SetModeError>>) {
    |m: ModeSwitch, v: ImageView| mode_step(m, v)
}

/// A reset of a drive that reports neither fault nor warning finishes successfully after the
/// one exchange that sends the cleared outputs, without raising the fault-reset bit; so a
/// second reset right after the first succeeds in the same way. Both hold whatever the
/// outputs are when the reset starts.
pub proof fn lemma_reset_twice_when_healthy(
    id: usize,
    first_outputs: Seq<u8>,
    second_outputs: Seq<u8>,
    feed: spec_fn(nat) -> Seq<u8>,
)
    requires
        forall|n: nat| healthy(#[trigger] feed(n)),
    ensures
        crate::run::run(reset_fn(), Reset { id, phase: ResetPhase::Start }, first_outputs, feed, 0, 2)
            == Some((Ok::<(), ResetError>(()), 1nat)),
        crate::run::run(reset_fn(), Reset { id, phase: ResetPhase::Start }, second_outputs, feed, 1, 2)
            == Some((Ok::<(), ResetError>(()), 2nat)),
{
    lemma_healthy_reset(id, first_outputs, feed, 0);
    lemma_healthy_reset(id, second_outputs, feed, 1);
}

/// A reset of a healthy drive, started after `k` exchanges.
proof fn lemma_healthy_reset(id: usize, outputs: Seq<u8>, feed: spec_fn(nat) -> Seq<u8>, k: nat)
    requires
        healthy(feed(k + 1)),
    ensures
        crate::run::run(reset_fn(), Reset { id, phase: ResetPhase::Start }, outputs, feed, k, 2)
            == Some((Ok::<(), ResetError>(()), k + 1)),
{
    let m0 = Reset { id, phase: ResetPhase::Start };
    let (m1, v1, s1) = reset_step(m0, crate::run::seen(feed(k), outputs));
    assert(s1 == Step::<Result<(), ResetError>>::Cycle);
    let (m2, v2, s2) = reset_step(m1, crate::run::seen(feed(k + 1), v1.outputs));
    assert(s2 == Step::Done(Ok::<(), ResetError>(())));
    assert(crate::run::run(reset_fn(), m1, v1.outputs, feed, k + 1, 1) == Some((Ok::<(), ResetError>(()), k + 1)));
}


/// Whether the drive's inputs report voltage enabled and quick stop.
pub open spec fn voltage_reached(inputs: Seq<u8>) -> bool {
    reports(inputs, StatusWordBit::VoltageEnabled) && reports(inputs, StatusWordBit::QuickStop)
}

/// Whether the drive's inputs report operation enabled and switched on.
pub open spec fn operation_reached(inputs: Seq<u8>) -> bool {
    reports(inputs, StatusWordBit::OperationEnabled) && reports(inputs, StatusWordBit::SwitchedOn)
}

/// Two states whose next step on the same image is the same run on from there.
proof fn lemma_same_first_step<M, R>(
    step: spec_fn(M, ImageView) -> (M, ImageView, Step<R>),
    a: M,
    b: M,
    outputs: Seq<u8>,
    feed: spec_fn(nat) -> Seq<u8>,
    k: nat,
    fuel: nat,
)
    requires
        fuel > 0,
        step(a, crate::run::seen(feed(k), outputs)) == step(b, crate::run::seen(feed(k), outputs)),
    ensures
        crate::run::run(step, a, outputs, feed, k, fuel) == crate::run::run(step, b, outputs, feed, k, fuel),
{
}

/// The second stage of enabling, from exchange `k`, on a drive that reaches operation at
/// exchange `c` and not before, within the budget, with voltage still reported then.
proof fn lemma_operation_stage(id: usize, budget: u32, outputs: Seq<u8>, feed: spec_fn(nat) -> Seq<u8>, k: nat, c: nat)
    requires
        k <= c,
        c - k <= budget,
        forall|j: nat| k <= j < c ==> !operation_reached(#[trigger] feed(j)),
        operation_reached(feed(c)),
        voltage_reached(feed(c)),
    ensures
        crate::run::run(enable_fn(), Enable { id, phase: EnablePhase::Operation, budget }, outputs, feed, k, (c - k + 1) as nat)
            == Some((Ok::<Device, EnableError>(Device { id }), c)),
    decreases c - k,
{
    let m = Enable { id, phase: EnablePhase::Operation, budget };
    let (m2, v2, s) = enable_step(m, crate::run::seen(feed(k), outputs));
    if k < c {
        assert(!operation_reached(feed(k)));
        assert(s == Step::<Result<Device, EnableError>>::Cycle);
        lemma_operation_stage(id, (budget - 1) as u32, v2.outputs, feed, k + 1, c);
    }
}

/// The first stage of enabling, from exchange `k`, on a drive that reports voltage from
/// exchange `v0` on and operation from exchange `c` on, within the budget.
proof fn lemma_voltage_stage(id: usize, budget: u32, outputs: Seq<u8>, feed: spec_fn(nat) -> Seq<u8>, k: nat, v0: nat, c: nat)
    requires
        k <= v0 <= c,
        c - k <= budget,
        forall|j: nat| k <= j < v0 ==> !voltage_reached(#[trigger] feed(j)),
        voltage_reached(feed(v0)),
        forall|j: nat| k <= j < c ==> !operation_reached(#[trigger] feed(j)),
        operation_reached(feed(c)),
        voltage_reached(feed(c)),
    ensures
        crate::run::run(enable_fn(), Enable { id, phase: EnablePhase::Voltage, budget }, outputs, feed, k, (c - k + 1) as nat)
            == Some((Ok::<Device, EnableError>(Device { id }), c)),
    decreases v0 - k,
{
    let m = Enable { id, phase: EnablePhase::Voltage, budget };
    let (m2, v2, s) = enable_step(m, crate::run::seen(feed(k), outputs));
    if k < v0 {
        assert(!voltage_reached(feed(k)));
        assert(s == Step::<Result<Device, EnableError>>::Cycle);
        lemma_voltage_stage(id, (budget - 1) as u32, v2.outputs, feed, k + 1, v0, c);
    } else {
        lemma_same_first_step(enable_fn(), m, Enable { phase: EnablePhase::Operation, ..m }, outputs, feed, k, (c - k + 1) as nat);
        lemma_operation_stage(id, budget, outputs, feed, k, c);
    }
}

/// Enabling a healthy drive that reports voltage enabled and quick stop from exchange `n`
/// on, and operation enabled and switched on from exchange `n + m` on, within the budget,
/// succeeds: after `n + m` exchanges, or after the one exchange of the reset where that is
/// more.
pub proof fn lemma_enable_succeeds(id: usize, outputs: Seq<u8>, feed: spec_fn(nat) -> Seq<u8>, n: nat, m: nat)
    requires
        n + m <= ENABLE_BUDGET,
        forall|j: nat| healthy(#[trigger] feed(j)),
        forall|j: nat| voltage_reached(#[trigger] feed(j)) <==> j >= n,
        forall|j: nat| operation_reached(#[trigger] feed(j)) <==> j >= n + m,
    ensures
        ({
            let c: nat = if n + m >= 1 { n + m } else { 1 };
            crate::run::run(enable_fn(), Enable::start(id), outputs, feed, 0, c + 1)
                == Some((Ok::<Device, EnableError>(Device { id }), c))
        }),
{
    let c: nat = if n + m >= 1 { n + m } else { 1 };
    let v0: nat = if n >= 1 { n } else { 1 };
    let m0 = Enable::start(id);
    let (m1, v1, s1) = enable_step(m0, crate::run::seen(feed(0), outputs));
    assert(s1 == Step::<Result<Device, EnableError>>::Cycle);
    let volt = Enable { id, phase: EnablePhase::Voltage, budget: ENABLE_BUDGET };
    assert(healthy(feed(1)));
    lemma_same_first_step(enable_fn(), m1, volt, v1.outputs, feed, 1, c);
    assert forall|j: nat| 1 <= j < v0 implies !voltage_reached(#[trigger] feed(j)) by {}
    assert forall|j: nat| 1 <= j < c implies !operation_reached(#[trigger] feed(j)) by {}
    assert(voltage_reached(feed(v0)));
    assert(operation_reached(feed(c)));
    assert(voltage_reached(feed(c)));
    lemma_voltage_stage(id, ENABLE_BUDGET, v1.outputs, feed, 1, v0, c);
}

/// The second stage of enabling on a drive that never reports operation enabled: it ends in
/// a timeout once the budget is spent, and not before.
proof fn lemma_operation_times_out(id: usize, budget: u32, outputs: Seq<u8>, feed: spec_fn(nat) -> Seq<u8>, k: nat)
    requires
        forall|j: nat| !reports(#[trigger] feed(j), StatusWordBit::OperationEnabled),
    ensures
        crate::run::run(enable_fn(), Enable { id, phase: EnablePhase::Operation, budget }, outputs, feed, k, (budget + 1) as nat)
            == Some((Err::<Device, EnableError>(EnableError::Timeout(id)), (k + budget) as nat)),
    decreases budget,
{
    let m = Enable { id, phase: EnablePhase::Operation, budget };
    let (m2, v2, s) = enable_step(m, crate::run::seen(feed(k), outputs));
    assert(!reports(feed(k), StatusWordBit::OperationEnabled));
    if budget > 0 {
        assert(s == Step::<Result<Device, EnableError>>::Cycle);
        lemma_operation_times_out(id, (budget - 1) as u32, v2.outputs, feed, k + 1);
    }
}

/// The first stage of enabling on a drive that never reports operation enabled.
proof fn lemma_voltage_times_out(id: usize, budget: u32, outputs: Seq<u8>, feed: spec_fn(nat) -> Seq<u8>, k: nat)
    requires
        forall|j: nat| !reports(#[trigger] feed(j), StatusWordBit::OperationEnabled),
    ensures
        crate::run::run(enable_fn(), Enable { id, phase: EnablePhase::Voltage, budget }, outputs, feed, k, (budget + 1) as nat)
            == Some((Err::<Device, EnableError>(EnableError::Timeout(id)), (k + budget) as nat)),
    decreases budget,
{
    let m = Enable { id, phase: EnablePhase::Voltage, budget };
    let (m2, v2, s) = enable_step(m, crate::run::seen(feed(k), outputs));
    if !voltage_reached(feed(k)) && budget > 0 {
        assert(s == Step::<Result<Device, EnableError>>::Cycle);
        lemma_voltage_times_out(id, (budget - 1) as u32, v2.outputs, feed, k + 1);
    } else {
        lemma_same_first_step(enable_fn(), m, Enable { phase: EnablePhase::Operation, ..m }, outputs, feed, k, (budget + 1) as nat);
        lemma_operation_times_out(id, budget, outputs, feed, k);
    }
}

/// Enabling a healthy drive that never reports operation enabled fails with a timeout after
/// exactly the reset's exchange and the whole enable budget, and not before.
pub proof fn lemma_enable_times_out(id: usize, outputs: Seq<u8>, feed: spec_fn(nat) -> Seq<u8>)
    requires
        forall|j: nat| healthy(#[trigger] feed(j)),
        forall|j: nat| !reports(#[trigger] feed(j), StatusWordBit::OperationEnabled),
    ensures
        crate::run::run(enable_fn(), Enable::start(id), outputs, feed, 0, (ENABLE_BUDGET + 2) as nat)
            == Some((Err::<Device, EnableError>(EnableError::Timeout(id)), (ENABLE_BUDGET + 1) as nat)),
{
    let m0 = Enable::start(id);
    let (m1, v1, s1) = enable_step(m0, crate::run::seen(feed(0), outputs));
    assert(s1 == Step::<Result<Device, EnableError>>::Cycle);
    let volt = Enable { id, phase: EnablePhase::Voltage, budget: ENABLE_BUDGET };
    assert(healthy(feed(1)));
    lemma_same_first_step(enable_fn(), m1, volt, v1.outputs, feed, 1, (ENABLE_BUDGET + 1) as nat);
    lemma_voltage_times_out(id, ENABLE_BUDGET, v1.outputs, feed, 1);
}

/// A mode switch on a drive that never echoes the requested mode fails, naming the device and
/// the mode, after exactly its retry budget of exchanges.
pub proof fn lemma_mode_switch_fails(ms: ModeSwitch, outputs: Seq<u8>, feed: spec_fn(nat) -> Seq<u8>, k: nat)
    requires
        forall|j: nat| !echoes(#[trigger] feed(j), ms.mode),
    ensures
        crate::run::run(mode_fn(), ms, outputs, feed, k, (ms.retries + 1) as nat)
            == Some((Err::<(), SetModeError>(SetModeError(ms.id, ms.mode)), (k + ms.retries) as nat)),
    decreases ms.retries,
{
    let (m2, v2, s) = mode_step(ms, crate::run::seen(feed(k), outputs));
    assert(!echoes(feed(k), ms.mode));
    if ms.retries > 0 {
        assert(s == Step::<Result<(), SetModeError>>::Cycle);
        lemma_mode_switch_fails(m2, v2.outputs, feed, k + 1);
    }
}

/// Whether a drive's inputs echo a mode of operation.
pub open spec fn echoes(inputs: Seq<u8>, mode: OperationMode) -> bool {
    crate::image::field_offset(MappedPdo::OperationMode) < inputs.len()
        && inputs[crate::image::field_offset(MappedPdo::OperationMode) as int] == mode_byte(mode)
}

} // verus!
