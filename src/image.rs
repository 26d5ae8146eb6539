//! The per-device slice of the process image, and bit and byte access to it.
use vstd::prelude::*;

verus! {

/// Declares ethercrab's `error::Error`, the fieldbus master's failure (for instance why a
/// device's image could not be located, or why an object dictionary write failed), so that
/// the library's errors can carry it unchanged. Its values are opaque here: nothing is
/// assumed of them.
#[verifier::external_type_specification]
#[verifier::external_body]
pub struct ExEthercrabError(ethercrab::error::Error);

/// The fields of a drive's process image, named by their byte offset.
///
/// The same offsets address the output image (targets, control word) and the input image
/// (actual values, status word).
#[derive(Clone, Copy, Debug, PartialEq, Eq, Structural)]
pub enum MappedPdo {
    /// Control word (outputs) or status word (inputs), two bytes.
    ControlStatusWord,
    /// Mode of operation (outputs) or its echo (inputs), one byte.
    OperationMode,
    /// Target or actual position, four bytes little-endian.
    Position,
    /// Profile velocity, four bytes little-endian.
    ProfileVelocity,
    /// Target or actual velocity.
    Velocity,
    /// Target or actual torque.
    Torque,
    /// Velocity offset.
    VelocityOffset,
    /// Torque offset.
    TorqueOffset,
}

/// Byte offset of a field in the process image.
pub open spec fn field_offset(field: MappedPdo) -> nat {
    match field {
        MappedPdo::ControlStatusWord => 0,
        MappedPdo::OperationMode => 2,
        MappedPdo::Position => 3,
        MappedPdo::ProfileVelocity => 7,
        MappedPdo::Velocity => 11,
        MappedPdo::Torque => 15,
        MappedPdo::VelocityOffset => 17,
        MappedPdo::TorqueOffset => 21,
    }
}

impl MappedPdo {
    /// Byte offset of the field in the process image.
    pub fn offset(&self) -> (r: usize)
        ensures
            r == field_offset(*self),
    {
        match self {
            MappedPdo::ControlStatusWord => 0,
            MappedPdo::OperationMode => 2,
            MappedPdo::Position => 3,
            MappedPdo::ProfileVelocity => 7,
            MappedPdo::Velocity => 11,
            MappedPdo::Torque => 15,
            MappedPdo::VelocityOffset => 17,
            MappedPdo::TorqueOffset => 21,
        }
    }
}

/// Mask of bit `bit % 8` within a byte.
pub open spec fn bit_mask(bit: u8) -> u8 {
    1u8 << (bit % 8)
}

/// Index of the byte that holds bit `bit` of the field at byte offset `offset`, in a buffer
/// of `len` bytes: bits past the first byte spill into the following bytes, and the index
/// wraps around at the end of the buffer.
pub open spec fn byte_index(len: nat, bit: u8, offset: nat) -> int
    recommends
        len > 0,
{
    ((offset + bit / 8) % (len as int)) as int
}

/// Whether the addressed bit is set in a byte buffer; an empty buffer has no bit set.
pub open spec fn bit_is_set(s: Seq<u8>, bit: u8, offset: nat) -> bool {
    s.len() > 0 && s[byte_index(s.len(), bit, offset)] & bit_mask(bit) != 0
}

/// The buffer with the addressed bit set (`value`) or cleared; an empty buffer stays empty.
pub open spec fn with_bit(s: Seq<u8>, bit: u8, offset: nat, value: bool) -> Seq<u8> {
    if s.len() == 0 {
        s
    } else {
        let i = byte_index(s.len(), bit, offset);
        s.update(i, if value { s[i] | bit_mask(bit) } else { s[i] & !bit_mask(bit) })
    }
}

/// The byte at index `i`, or zero where the buffer does not reach.
pub open spec fn byte_or_zero(s: Seq<u8>, i: int) -> u8 {
    if 0 <= i < s.len() { s[i] } else { 0 }
}

/// The little-endian 16-bit value at `offset`, counting bytes past the end as zero.
pub open spec fn le_u16_at(s: Seq<u8>, offset: int) -> int {
    byte_or_zero(s, offset) + 256 * byte_or_zero(s, offset + 1)
}

/// The little-endian 32-bit value at `offset`, counting bytes past the end as zero.
pub open spec fn le_u32_at(s: Seq<u8>, offset: int) -> int {
    byte_or_zero(s, offset) + 256 * byte_or_zero(s, offset + 1) + 65536 * byte_or_zero(
        s,
        offset + 2,
    ) + 16777216 * byte_or_zero(s, offset + 3)
}

/// Byte `k` (0 to 3) of the little-endian representation of `v`.
pub open spec fn le_byte(v: u32, k: int) -> u8 {
    if k == 0 {
        (v % 256) as u8
    } else if k == 1 {
        ((v / 256) % 256) as u8
    } else if k == 2 {
        ((v / 65536) % 256) as u8
    } else {
        (v / 16777216) as u8
    }
}

/// The buffer with the four little-endian bytes of `v` written from `offset` on; bytes that
/// would fall past the end of the buffer are not written.
pub open spec fn with_le_u32(s: Seq<u8>, offset: int, v: u32) -> Seq<u8> {
    Seq::new(
        s.len(),
        |i: int|
            if offset <= i < offset + 4 {
                le_byte(v, i - offset)
            } else {
                s[i]
            },
    )
}

/// Sets the addressed bit in a byte buffer and returns the new value of its byte (zero for
/// an empty buffer, which is left as it is).
pub fn set_bit_in(buf: &mut Vec<u8>, bit: u8, offset: usize) -> (r: u8)
    ensures
        final(buf)@ == with_bit(old(buf)@, bit, offset as nat, true),
        old(buf)@.len() == 0 ==> r == 0,
        old(buf)@.len() > 0 ==> r == final(buf)@[byte_index(old(buf)@.len(), bit, offset as nat)],
{
    let len = buf.len();
    if len == 0 {
        return 0;
    }
    let i = ((offset as u128 + (bit / 8) as u128) % (len as u128)) as usize;
    let v = buf[i] | (1u8 << (bit % 8));
    buf[i] = v;
    v
}

/// Clears the addressed bit in a byte buffer and returns the new value of its byte (zero
/// for an empty buffer, which is left as it is).
pub fn clear_bit_in(buf: &mut Vec<u8>, bit: u8, offset: usize) -> (r: u8)
    ensures
        final(buf)@ == with_bit(old(buf)@, bit, offset as nat, false),
        old(buf)@.len() == 0 ==> r == 0,
        old(buf)@.len() > 0 ==> r == final(buf)@[byte_index(old(buf)@.len(), bit, offset as nat)],
{
    let len = buf.len();
    if len == 0 {
        return 0;
    }
    let i = ((offset as u128 + (bit / 8) as u128) % (len as u128)) as usize;
    let v = buf[i] & !(1u8 << (bit % 8));
    buf[i] = v;
    v
}

/// Reads the addressed bit of a byte buffer; an empty buffer reads as all clear.
pub fn bit_in(buf: &Vec<u8>, bit: u8, offset: usize) -> (r: bool)
    ensures
        r == bit_is_set(buf@, bit, offset as nat),
{
    let len = buf.len();
    if len == 0 {
        return false;
    }
    let i = ((offset as u128 + (bit / 8) as u128) % (len as u128)) as usize;
    buf[i] & (1u8 << (bit % 8)) != 0
}


/// Reads the little-endian 16-bit value at `offset`; bytes past the end read as zero.
pub fn le_u16_in(buf: &Vec<u8>, offset: usize) -> (r: u16)
    ensures
        r as int == le_u16_at(buf@, offset as int),
{
    let lo = byte_after(buf, offset, 0);
    let hi = byte_after(buf, offset, 1);
    lo as u16 + (hi as u16) * 256
}

/// Reads the little-endian 32-bit value at `offset`; bytes past the end read as zero.
pub fn le_u32_in(buf: &Vec<u8>, offset: usize) -> (r: u32)
    ensures
        r as int == le_u32_at(buf@, offset as int),
{
    let b0 = byte_after(buf, offset, 0) as u32;
    let b1 = byte_after(buf, offset, 1) as u32;
    let b2 = byte_after(buf, offset, 2) as u32;
    let b3 = byte_after(buf, offset, 3) as u32;
    b0 + b1 * 256 + b2 * 65536 + b3 * 16777216
}

/// The byte at `offset + k`, or zero past the end of the buffer.
fn byte_after(buf: &Vec<u8>, offset: usize, k: usize) -> (r: u8)
    requires
        k < 4,
    ensures
        r == byte_or_zero(buf@, offset + k),
{
    if (offset as u128) + (k as u128) < buf.len() as u128 {
        buf[offset + k]
    } else {
        0
    }
}

/// Writes the four little-endian bytes of `v` from `offset` on. The write is confined to
/// those four bytes, and bytes that would fall past the end of the buffer are not written.
pub fn write_le_u32_in(buf: &mut Vec<u8>, offset: usize, v: u32)
    ensures
        final(buf)@ == with_le_u32(old(buf)@, offset as int, v),
{
    let ghost start = buf@;
    let mut k: usize = 0;
    while k < 4
        invariant
            k <= 4,
            buf@.len() == start.len(),
            forall|i: int|
                0 <= i < start.len() ==> buf@[i] == (if offset <= i < offset + k {
                    le_byte(v, i - offset)
                } else {
                    start[i]
                }),
        decreases 4 - k,
    {
        if offset as u128 + (k as u128) < buf.len() as u128 {
            let b: u8 = if k == 0 {
                (v % 256) as u8
            } else if k == 1 {
                ((v / 256) % 256) as u8
            } else if k == 2 {
                ((v / 65536) % 256) as u8
            } else {
                (v / 16777216) as u8
            };
            buf[offset + k] = b;
        }
        k = k + 1;
    }
    assert(buf@ =~= with_le_u32(start, offset as int, v));
}


/// Bits of the control word, in the output image.
#[derive(Clone, Copy, Debug, PartialEq, Eq, Structural)]
pub enum ControlBit {
    /// Switch the drive on.
    SwitchOn,
    /// Enable the drive voltage.
    EnableVoltage,
    /// Quick stop (active low on the drive side: set to allow operation).
    QuickStop,
    /// Enable operation.
    EnableOperation,
    /// Start of motion, new set-point, or start of homing.
    Control4,
    /// Change set immediately; start of negative jogging.
    Control5,
    /// Relative positioning.
    Control6,
    /// Acknowledge a fault.
    FaultReset,
    /// Halt the motion.
    Halt,
    /// Operation-mode specific.
    Control9,
}

/// Bit number of a control word bit.
pub open spec fn control_bit_number(b: ControlBit) -> u8 {
    match b {
        ControlBit::SwitchOn => 0,
        ControlBit::EnableVoltage => 1,
        ControlBit::QuickStop => 2,
        ControlBit::EnableOperation => 3,
        ControlBit::Control4 => 4,
        ControlBit::Control5 => 5,
        ControlBit::Control6 => 6,
        ControlBit::FaultReset => 7,
        ControlBit::Halt => 8,
        ControlBit::Control9 => 9,
    }
}

impl ControlBit {
    /// Bit number within the control word.
    pub fn number(&self) -> (r: u8)
        ensures
            r == control_bit_number(*self),
    {
        match self {
            ControlBit::SwitchOn => 0,
            ControlBit::EnableVoltage => 1,
            ControlBit::QuickStop => 2,
            ControlBit::EnableOperation => 3,
            ControlBit::Control4 => 4,
            ControlBit::Control5 => 5,
            ControlBit::Control6 => 6,
            ControlBit::FaultReset => 7,
            ControlBit::Halt => 8,
            ControlBit::Control9 => 9,
        }
    }
}

/// Bits of the status word, in the input image.
#[derive(Clone, Copy, Debug, PartialEq, Eq, Structural)]
pub enum StatusWordBit {
    /// Ready to switch on.
    ReadyToSwitchOn,
    /// Switched on.
    SwitchedOn,
    /// Operation enabled.
    OperationEnabled,
    /// A fault is present.
    Fault,
    /// The drive voltage is enabled.
    VoltageEnabled,
    /// Quick stop is not active.
    QuickStop,
    /// Switching on is disabled.
    SwitchOnDisabled,
    /// A warning is present.
    Warning,
    /// Manufacturer specific.
    ManufacturerSpecific,
    /// Remote control.
    Remote,
    /// The requested motion has completed.
    MotionComplete,
    /// Start acknowledged, or reference reached.
    AckStartRefReached,
    /// The drive has been homed.
    DriveHomed,
}

/// Bit number of a status word bit.
pub open spec fn status_bit_number(b: StatusWordBit) -> u8 {
    match b {
        StatusWordBit::ReadyToSwitchOn => 0,
        StatusWordBit::SwitchedOn => 1,
        StatusWordBit::OperationEnabled => 2,
        StatusWordBit::Fault => 3,
        StatusWordBit::VoltageEnabled => 4,
        StatusWordBit::QuickStop => 5,
        StatusWordBit::SwitchOnDisabled => 6,
        StatusWordBit::Warning => 7,
        StatusWordBit::ManufacturerSpecific => 8,
        StatusWordBit::Remote => 9,
        StatusWordBit::MotionComplete => 10,
        StatusWordBit::AckStartRefReached => 12,
        StatusWordBit::DriveHomed => 15,
    }
}

impl StatusWordBit {
    /// Bit number within the status word.
    pub fn number(&self) -> (r: u8)
        ensures
            r == status_bit_number(*self),
    {
        match self {
            StatusWordBit::ReadyToSwitchOn => 0,
            StatusWordBit::SwitchedOn => 1,
            StatusWordBit::OperationEnabled => 2,
            StatusWordBit::Fault => 3,
            StatusWordBit::VoltageEnabled => 4,
            StatusWordBit::QuickStop => 5,
            StatusWordBit::SwitchOnDisabled => 6,
            StatusWordBit::Warning => 7,
            StatusWordBit::ManufacturerSpecific => 8,
            StatusWordBit::Remote => 9,
            StatusWordBit::MotionComplete => 10,
            StatusWordBit::AckStartRefReached => 12,
            StatusWordBit::DriveHomed => 15,
        }
    }
}

/// One device's slice of the process image as the host sees it between two exchanges: the
/// inputs last received from the drive and the outputs to be sent at the next exchange. When
/// the device could not be located, `missing` holds the fieldbus master's reason and the two
/// buffers are not used.
pub struct ProcessImage {
    /// Bytes received from the drive.
    pub inputs: Vec<u8>,
    /// Bytes to send to the drive.
    pub outputs: Vec<u8>,
    /// Why the device's image could not be located, if it could not.
    pub missing: Option<ethercrab::error::Error>,
}

/// Mathematical view of a [`ProcessImage`].
pub struct ImageView {
    pub inputs: Seq<u8>,
    pub outputs: Seq<u8>,
    pub missing: Option<ethercrab::error::Error>,
}

impl View for ProcessImage {
    type V = ImageView;

    open spec fn view(&self) -> ImageView {
        ImageView { inputs: self.inputs@, outputs: self.outputs@, missing: self.missing }
    }
}

/// The image after setting (`value`) or clearing an output bit; an image that could not be
/// located is left as it is.
pub open spec fn with_output_bit(v: ImageView, bit: u8, offset: nat, value: bool) -> ImageView {
    if v.missing is Some {
        v
    } else {
        ImageView { outputs: with_bit(v.outputs, bit, offset, value), ..v }
    }
}

/// An input bit as the device reports it; nothing is set in an image that could not be
/// located.
pub open spec fn input_bit(v: ImageView, bit: u8, offset: nat) -> bool {
    v.missing is None && bit_is_set(v.inputs, bit, offset)
}

/// A status word bit as the device reports it.
pub open spec fn status(v: ImageView, b: StatusWordBit) -> bool {
    input_bit(v, status_bit_number(b), 0)
}

/// A control word bit as it will be sent.
pub open spec fn control(v: ImageView, b: ControlBit) -> bool {
    v.missing is None && bit_is_set(v.outputs, control_bit_number(b), 0)
}

/// The image with a control word bit set or cleared.
pub open spec fn with_control(v: ImageView, b: ControlBit, value: bool) -> ImageView {
    with_output_bit(v, control_bit_number(b), 0, value)
}

impl ProcessImage {
    /// The image of a device that was located.
    pub fn located(inputs: Vec<u8>, outputs: Vec<u8>) -> (r: ProcessImage)
        ensures
            r@ == (ImageView { inputs: inputs@, outputs: outputs@, missing: None }),
    {
        ProcessImage { inputs, outputs, missing: None }
    }

    /// The image of a device that could not be located, with the reason.
    pub fn unavailable(error: ethercrab::error::Error) -> (r: ProcessImage)
        ensures
            r@ == (ImageView { inputs: Seq::empty(), outputs: Seq::empty(), missing: Some(error) }),
    {
        ProcessImage { inputs: Vec::new(), outputs: Vec::new(), missing: Some(error) }
    }

    /// Sets bit `bit` of `field` in the outputs, the bit number counting on into the
    /// following bytes. Returns the new value of the byte written, or zero when the image
    /// could not be located or is empty (nothing is written then).
    pub fn set_bit(&mut self, bit: u8, field: MappedPdo) -> (r: u8)
        ensures
            final(self)@ == with_output_bit(old(self)@, bit, field_offset(field), true),
            (old(self).missing is Some || old(self)@.outputs.len() == 0) ==> r == 0,
            (old(self).missing is None && old(self)@.outputs.len() > 0) ==> r == final(self)@.outputs[byte_index(old(self)@.outputs.len(), bit, field_offset(field))],
    {
        if self.missing.is_some() {
            return 0;
        }
        set_bit_in(&mut self.outputs, bit, field.offset())
    }

    /// Clears bit `bit` of `field` in the outputs. Returns the new value of the byte
    /// written, or zero when the image could not be located or is empty.
    pub fn unset_bit(&mut self, bit: u8, field: MappedPdo) -> (r: u8)
        ensures
            final(self)@ == with_output_bit(old(self)@, bit, field_offset(field), false),
            (old(self).missing is Some || old(self)@.outputs.len() == 0) ==> r == 0,
            (old(self).missing is None && old(self)@.outputs.len() > 0) ==> r == final(self)@.outputs[byte_index(old(self)@.outputs.len(), bit, field_offset(field))],
    {
        if self.missing.is_some() {
            return 0;
        }
        clear_bit_in(&mut self.outputs, bit, field.offset())
    }

    /// Reads bit `bit` of `field` in the inputs; false when the image could not be located
    /// or is empty.
    pub fn get_bit(&self, bit: u8, field: MappedPdo) -> (r: bool)
        ensures
            r == input_bit(self@, bit, field_offset(field)),
    {
        if self.missing.is_some() {
            return false;
        }
        bit_in(&self.inputs, bit, field.offset())
    }

    /// Reads a status word bit.
    pub fn status(&self, b: StatusWordBit) -> (r: bool)
        ensures
            r == status(self@, b),
    {
        self.get_bit(b.number(), MappedPdo::ControlStatusWord)
    }

    /// Sets or clears a control word bit.
    pub fn control(&mut self, b: ControlBit, value: bool)
        ensures
            final(self)@ == with_control(old(self)@, b, value),
    {
        if value {
            self.set_bit(b.number(), MappedPdo::ControlStatusWord);
        } else {
            self.unset_bit(b.number(), MappedPdo::ControlStatusWord);
        }
    }

    /// Reads two input bytes from byte `byte` on, little-endian (bytes past the end of the
    /// image read as zero). Fails when the image could not be located.
    pub fn get_16(&self, byte: u8) -> (r: Result<u16, ethercrab::error::Error>)
        ensures
            self.missing is Some ==> r == Err::<u16, _>(self.missing->Some_0),
            self.missing is None ==> r == Ok::<u16, ethercrab::error::Error>(
                le_u16_at(self@.inputs, byte as int) as u16,
            ),
    {
        match self.missing {
            Some(e) => Err(e),
            None => Ok(le_u16_in(&self.inputs, byte as usize)),
        }
    }

    /// Reads the four little-endian input bytes of `field` (bytes past the end of the image
    /// read as zero). Fails when the image could not be located.
    pub fn get_32(&self, field: MappedPdo) -> (r: Result<u32, ethercrab::error::Error>)
        ensures
            self.missing is Some ==> r == Err::<u32, _>(self.missing->Some_0),
            self.missing is None ==> r == Ok::<u32, ethercrab::error::Error>(
                le_u32_at(self@.inputs, field_offset(field) as int) as u32,
            ),
    {
        match self.missing {
            Some(e) => Err(e),
            None => Ok(le_u32_in(&self.inputs, field.offset())),
        }
    }

    /// Writes the four little-endian bytes of `value` into `field` of the outputs, and no
    /// byte outside it. Fails, writing nothing, when the image could not be located.
    pub fn set_32(&mut self, field: MappedPdo, value: u32) -> (r: Result<
        (),
        ethercrab::error::Error,
    >)
        ensures
            old(self).missing is Some ==> r == Err::<(), _>(old(self).missing->Some_0) && final(self)@ == old(self)@,
            old(self).missing is None ==> r is Ok && final(self)@ == (ImageView {
                outputs: with_le_u32(old(self)@.outputs, field_offset(field) as int, value),
                ..old(self)@
            }),
    {
        match self.missing {
            Some(e) => Err(e),
            None => {
                write_le_u32_in(&mut self.outputs, field.offset(), value);
                Ok(())
            },
        }
    }

    /// The input byte at `field`, if the image was located and reaches it.
    pub fn input_byte(&self, field: MappedPdo) -> (r: Option<u8>)
        ensures
            r == input_byte(self@, field_offset(field)),
    {
        if self.missing.is_some() || field.offset() >= self.inputs.len() {
            None
        } else {
            Some(self.inputs[field.offset()])
        }
    }

    /// Writes the output byte at `field`; nothing is written when the image could not be
    /// located or does not reach it.
    pub fn set_output_byte(&mut self, field: MappedPdo, value: u8)
        ensures
            final(self)@ == with_output_byte(old(self)@, field_offset(field), value),
    {
        if self.missing.is_none() && field.offset() < self.outputs.len() {
            let i = field.offset();
            self.outputs[i] = value;
        }
    }

    /// Sets every output byte to zero. Fails, writing nothing, when the image could not be
    /// located.
    pub fn clear_outputs(&mut self) -> (r: Result<(), ethercrab::error::Error>)
        ensures
            old(self).missing is Some ==> r == Err::<(), _>(old(self).missing->Some_0) && final(self)@ == old(self)@,
            old(self).missing is None ==> r is Ok && final(self)@ == (ImageView {
                outputs: Seq::new(old(self)@.outputs.len(), |i: int| 0u8),
                ..old(self)@
            }),
    {
        match self.missing {
            Some(e) => Err(e),
            None => {
                let n = self.outputs.len();
                let mut i: usize = 0;
                while i < n
                    invariant
                        i <= n,
                        n == self.outputs@.len(),
                        self.missing is None,
                        self.inputs@ == old(self).inputs@,
                        self.outputs@.len() == old(self).outputs@.len(),
                        forall|j: int| 0 <= j < i ==> self.outputs@[j] == 0u8,
                    decreases n - i,
                {
                    self.outputs[i] = 0;
                    i = i + 1;
                }
                assert(self.outputs@ =~= Seq::new(old(self)@.outputs.len(), |i: int| 0u8));
                Ok(())
            },
        }
    }
}

/// The input byte at `offset`, if the image was located and reaches it.
pub open spec fn input_byte(v: ImageView, offset: nat) -> Option<u8> {
    if v.missing is None && offset < v.inputs.len() {
        Some(v.inputs[offset as int])
    } else {
        None
    }
}

/// The image with the output byte at `offset` replaced, where the image was located and
/// reaches it.
pub open spec fn with_output_byte(v: ImageView, offset: nat, value: u8) -> ImageView {
    if v.missing is None && offset < v.outputs.len() {
        ImageView { outputs: v.outputs.update(offset as int, value), ..v }
    } else {
        v
    }
}


/// Setting a bit of a non-empty buffer and then reading the same bit of the same field reads
/// it set; clearing it and then reading it reads it clear.
pub proof fn lemma_set_then_get(s: Seq<u8>, bit: u8, offset: nat)
    requires
        s.len() > 0,
    ensures
        bit_is_set(with_bit(s, bit, offset, true), bit, offset),
        !bit_is_set(with_bit(s, bit, offset, false), bit, offset),
{
    let i = byte_index(s.len(), bit, offset);
    let x = s[i];
    let m = bit_mask(bit);
    assert((x | m) & m != 0 && (x & !m) & m == 0) by (bit_vector)
        requires
            m == 1u8 << (bit % 8),
    ;
}

/// Bit 8 of a field is bit 0 of the byte after the field's first byte, that byte's index
/// wrapping around at the end of the buffer.
pub proof fn lemma_bit_spills_into_next_byte(s: Seq<u8>, offset: nat)
    requires
        s.len() > 0,
    ensures
        with_bit(s, 8, offset, true) == s.update(
            (offset as int + 1) % (s.len() as int),
            s[(offset as int + 1) % (s.len() as int)] | 1u8,
        ),
        bit_is_set(s, 8, offset) == (s[(offset as int + 1) % (s.len() as int)] & 1u8 != 0),
{
    assert(bit_mask(8) == 1u8) by (bit_vector);
}

/// Writing a 32-bit value into a field that the buffer holds and reading the field back gives
/// the value.
pub proof fn lemma_le_u32_round_trip(s: Seq<u8>, offset: int, v: u32)
    requires
        0 <= offset,
        offset + 4 <= s.len(),
    ensures
        le_u32_at(with_le_u32(s, offset, v), offset) == v,
{
    let w = with_le_u32(s, offset, v);
    assert(w[offset] == le_byte(v, 0));
    assert(w[offset + 1] == le_byte(v, 1));
    assert(w[offset + 2] == le_byte(v, 2));
    assert(w[offset + 3] == le_byte(v, 3));
    assert(((v % 256) as u8) as int + 256 * (((v / 256) % 256) as u8) as int + 65536 * (((v
        / 65536) % 256) as u8) as int + 16777216 * ((v / 16777216) as u8) as int == v)
        by (bit_vector);
}

/// A target position written through the position field and read back from the same
/// buffer gives the target's 32-bit pattern.
pub proof fn lemma_position_round_trip(s: Seq<u8>, target: i32)
    requires
        s.len() >= field_offset(MappedPdo::Position) + 4,
    ensures
        le_u32_at(with_le_u32(s, field_offset(MappedPdo::Position) as int, target as u32), field_offset(MappedPdo::Position) as int) == target as u32,
{
    lemma_le_u32_round_trip(s, 3, target as u32);
}

} // verus!
