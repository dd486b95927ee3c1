use vstd::prelude::*;

use dicom_core::VR;

verus! {

#[verifier::external_type_specification]
pub struct ExVR(VR);

/// Classification of an attribute's value representation into the handling
/// classes of the decoder. Each class selects one conversion policy; codes
/// that share a policy share a class, and everything the decoder does not
/// handle specially falls under `Other`.
#[derive(Debug, Clone, Copy, PartialEq, Eq, Structural)]
pub enum VrClass {
    /// Person-name, long-string, short-string, code-string and
    /// unique-identifier codes: decoded as text.
    Text,
    /// The date code: fixed-width date parse, raw text on failure.
    Date,
    /// The time code: a priority list of time formats, raw text on failure.
    Time,
    /// The date-time code: a priority list of combined formats, raw text on
    /// failure.
    DateTime,
    /// The unsigned-short code: parsed as a 16-bit unsigned integer.
    UnsignedShort,
    /// The unsigned-long code: parsed as a 32-bit unsigned integer.
    UnsignedLong,
    /// The integer-string code: parsed as a 32-bit signed integer.
    IntegerString,
    /// The decimal-string and floating-point codes: parsed as a 64-bit
    /// floating-point number.
    Float,
    /// Every remaining code: best-effort text decode.
    Other,
}

/// The handling policy: which class each value representation code falls
/// under. Person-name, long-string, short-string, code-string and
/// unique-identifier codes are text; date, time, date-time, the integer
/// codes and the three floating-point codes each have their class; every
/// other code — binary, sequence, unknown — falls to `Other`.
pub open spec fn spec_classify_vr(code: VR) -> VrClass {
    match code {
        VR::PN | VR::LO | VR::SH | VR::CS | VR::UI => VrClass::Text,
        VR::DA => VrClass::Date,
        VR::TM => VrClass::Time,
        VR::DT => VrClass::DateTime,
        VR::US => VrClass::UnsignedShort,
        VR::UL => VrClass::UnsignedLong,
        VR::IS => VrClass::IntegerString,
        VR::DS | VR::FL | VR::FD => VrClass::Float,
        _ => VrClass::Other,
    }
}

/// Folds a value representation code into its handling class.
pub fn classify_vr(code: VR) -> (c: VrClass)
    ensures
        c == spec_classify_vr(code),
{
    match code {
        VR::PN | VR::LO | VR::SH | VR::CS | VR::UI => VrClass::Text,
        VR::DA => VrClass::Date,
        VR::TM => VrClass::Time,
        VR::DT => VrClass::DateTime,
        VR::US => VrClass::UnsignedShort,
        VR::UL => VrClass::UnsignedLong,
        VR::IS => VrClass::IntegerString,
        VR::DS | VR::FL | VR::FD => VrClass::Float,
        _ => VrClass::Other,
    }
}

} // verus!
