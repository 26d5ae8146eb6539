//! What the session decides on its own: which devices it configures and with what, and how
//! long a cycle waits.
use vstd::prelude::*;
use vstd::string::StringSliceAdditionalSpecFns;

verus! {

/// Object dictionary index of the drive's cycle time; written at subindex
/// [`CYCLE_TIME_SUBINDEX`], in seconds.
pub const CYCLE_TIME_INDEX: u16 = 0x212E;

/// Object dictionary subindex of the drive's cycle time.
pub const CYCLE_TIME_SUBINDEX: u8 = 2;

/// Object dictionary index of the output process data mapping.
pub const PDO_OUTPUT_INDEX: u16 = 0x1600;

/// Object dictionary index of the input process data mapping.
pub const PDO_INPUT_INDEX: u16 = 0x1A00;

/// Product identity of the CMMT-AS servo drive, configured whatever its name.
pub const PRODUCT_ID_AS: u32 = 0x7B_5A25;

/// Product identity of the CMMT-ST stepper drive, configured whatever its name.
pub const PRODUCT_ID_ST: u32 = 0x7B_1A95;

/// The output mapping: control word, mode of operation, target position, profile velocity,
/// target velocity, target torque, velocity offset, torque offset, and a padding byte.
pub open spec fn output_mapping() -> Seq<u32> {
    seq![
        0x6040_0010u32,
        0x6060_0008,
        0x607a_0020,
        0x6081_0020,
        0x60ff_0020,
        0x6071_0010,
        0x60b1_0020,
        0x60b2_0010,
        0x0000_0008,
    ]
}

/// The input mapping: status word, mode of operation display, actual position, actual
/// velocity, actual torque, a manufacturer-specific value, and a padding byte.
pub open spec fn input_mapping() -> Seq<u32> {
    seq![
        0x6041_0010u32,
        0x6061_0008,
        0x6064_0020,
        0x606c_0020,
        0x6077_0010,
        0x2194_0520,
        0x0000_0008,
    ]
}

/// The output process data mapping written to [`PDO_OUTPUT_INDEX`].
pub fn output_pdo_mapping() -> (r: Vec<u32>)
    ensures
        r@ == output_mapping(),
{
    let r = vec![
        0x6040_0010u32,
        0x6060_0008,
        0x607a_0020,
        0x6081_0020,
        0x60ff_0020,
        0x6071_0010,
        0x60b1_0020,
        0x60b2_0010,
        0x0000_0008,
    ];
    assert(r@ =~= output_mapping());
    r
}

/// The input process data mapping written to [`PDO_INPUT_INDEX`].
pub fn input_pdo_mapping() -> (r: Vec<u32>)
    ensures
        r@ == input_mapping(),
{
    let r = vec![
        0x6041_0010u32,
        0x6061_0008,
        0x6064_0020,
        0x606c_0020,
        0x6077_0010,
        0x2194_0520,
        0x0000_0008,
    ];
    assert(r@ =~= input_mapping());
    r
}

/// Whether two byte strings are equal.
fn same_bytes(a: &[u8], b: &[u8]) -> (r: bool)
    ensures
        r == (a@ == b@),
{
    if a.len() != b.len() {
        return false;
    }
    let mut i: usize = 0;
    while i < a.len()
        invariant
            i <= a@.len(),
            a@.len() == b@.len(),
            forall|j: int| 0 <= j < i ==> a@[j] == b@[j],
        decreases a@.len() - i,
    {
        if a[i] != b[i] {
            return false;
        }
        i = i + 1;
    }
    assert(a@ =~= b@);
    true
}

/// Whether a device is one that the session configures: it is recognized by its name or by
/// its product identity.
pub fn is_supported_device(name: &str, product_id: u32) -> (r: bool)
    ensures
        r == (name.spec_bytes() == "CMMT-AS".spec_bytes() || name.spec_bytes()
            == "CMMT-ST".spec_bytes() || product_id == PRODUCT_ID_AS || product_id
            == PRODUCT_ID_ST),
{
    let bytes = name.as_bytes();
    same_bytes(bytes, "CMMT-AS".as_bytes()) || same_bytes(bytes, "CMMT-ST".as_bytes())
        || product_id == PRODUCT_ID_AS || product_id == PRODUCT_ID_ST
}

/// How long a cycle waits after its exchange took `elapsed` of a cycle time of `cycle_time`
/// (both in nanoseconds): the rest of the cycle time, or nothing when the exchange took
/// longer than a cycle (the cycle then overran).
pub fn cycle_pause(cycle_time: u128, elapsed: u128) -> (r: Option<u128>)
    ensures
        elapsed > cycle_time ==> r == None::<u128>,
        elapsed <= cycle_time ==> r == Some((cycle_time - elapsed) as u128),
{
    if elapsed > cycle_time {
        None
    } else {
        Some(cycle_time - elapsed)
    }
}

} // verus!
