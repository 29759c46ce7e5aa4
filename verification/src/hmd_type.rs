//! The device model, as an enumeration over the driver's integer codes.

use vstd::prelude::*;

verus! {

/// Integer code for the absence of a device.
pub const HMD_TYPE_NONE: i32 = 0;
/// Integer code for the first development kit.
pub const HMD_TYPE_DK1: i32 = 3;
/// Integer code for the high-definition development-kit prototype.
pub const HMD_TYPE_DKHD: i32 = 4;
/// Integer code for the Crystal Cove prototype.
pub const HMD_TYPE_CRYSTAL_COVE_PROTO: i32 = 5;
/// Integer code for the second development kit.
pub const HMD_TYPE_DK2: i32 = 6;
/// Integer code for a model this wrapper does not know.
pub const HMD_TYPE_OTHER: i32 = 7;

/// The model of a head-mounted display. Codes the driver reports that
/// name no known model map to `Other`.
#[derive(Debug, Copy, Clone, PartialEq, Eq, Structural)]
pub enum HmdType {
    NoDevice,
    DK1,
    DKHD,
    CrystalCoveProto,
    DK2,
    Other,
}

/// The integer code of a device model.
pub open spec fn code_of_type(t: HmdType) -> i32 {
    match t {
        HmdType::NoDevice => HMD_TYPE_NONE,
        HmdType::DK1 => HMD_TYPE_DK1,
        HmdType::DKHD => HMD_TYPE_DKHD,
        HmdType::CrystalCoveProto => HMD_TYPE_CRYSTAL_COVE_PROTO,
        HmdType::DK2 => HMD_TYPE_DK2,
        HmdType::Other => HMD_TYPE_OTHER,
    }
}

/// The device model named by an integer code; every code that names no
/// known model stands for `Other`.
pub open spec fn type_of_code(c: i32) -> HmdType {
    if c == HMD_TYPE_NONE {
        HmdType::NoDevice
    } else if c == HMD_TYPE_DK1 {
        HmdType::DK1
    } else if c == HMD_TYPE_DKHD {
        HmdType::DKHD
    } else if c == HMD_TYPE_CRYSTAL_COVE_PROTO {
        HmdType::CrystalCoveProto
    } else if c == HMD_TYPE_DK2 {
        HmdType::DK2
    } else {
        HmdType::Other
    }
}

impl HmdType {
    /// Reads a device model from the driver's integer code.
    pub fn from_ll(c: i32) -> (r: HmdType)
        ensures
            r == type_of_code(c),
    {
        if c == HMD_TYPE_NONE {
            HmdType::NoDevice
        } else if c == HMD_TYPE_DK1 {
            HmdType::DK1
        } else if c == HMD_TYPE_DKHD {
            HmdType::DKHD
        } else if c == HMD_TYPE_CRYSTAL_COVE_PROTO {
            HmdType::CrystalCoveProto
        } else if c == HMD_TYPE_DK2 {
            HmdType::DK2
        } else {
            HmdType::Other
        }
    }

    /// The integer code to hand to the driver for this model.
    pub fn to_ll(&self) -> (r: i32)
        ensures
            r == code_of_type(*self),
    {
        match *self {
            HmdType::NoDevice => HMD_TYPE_NONE,
            HmdType::DK1 => HMD_TYPE_DK1,
            HmdType::DKHD => HMD_TYPE_DKHD,
            HmdType::CrystalCoveProto => HMD_TYPE_CRYSTAL_COVE_PROTO,
            HmdType::DK2 => HMD_TYPE_DK2,
            HmdType::Other => HMD_TYPE_OTHER,
        }
    }
}

/// Law: encoding a device model and decoding the code gives the model back.
pub proof fn lemma_type_code_round_trip(t: HmdType)
    ensures
        type_of_code(code_of_type(t)) == t,
{
}

/// Law: decoding an integer code and encoding the result gives the code
/// back on every code the driver defines; an unknown code comes back as
/// the code for `Other`.
pub proof fn lemma_code_type_round_trip(c: i32)
    ensures
        (c == HMD_TYPE_NONE || c == HMD_TYPE_DK1 || c == HMD_TYPE_DKHD
            || c == HMD_TYPE_CRYSTAL_COVE_PROTO || c == HMD_TYPE_DK2 || c == HMD_TYPE_OTHER)
            ==> code_of_type(type_of_code(c)) == c,
        !(c == HMD_TYPE_NONE || c == HMD_TYPE_DK1 || c == HMD_TYPE_DKHD
            || c == HMD_TYPE_CRYSTAL_COVE_PROTO || c == HMD_TYPE_DK2 || c == HMD_TYPE_OTHER)
            ==> code_of_type(type_of_code(c)) == HMD_TYPE_OTHER,
{
}

} // verus!
