use dicom_core::VR;
use dicom_reader::vr::{classify_vr, VrClass};

#[test]
fn text_codes_classify_as_text() {
    assert_eq!(classify_vr(VR::PN), VrClass::Text);
    assert_eq!(classify_vr(VR::LO), VrClass::Text);
    assert_eq!(classify_vr(VR::SH), VrClass::Text);
    assert_eq!(classify_vr(VR::CS), VrClass::Text);
    assert_eq!(classify_vr(VR::UI), VrClass::Text);
}

#[test]
fn temporal_codes_classify_by_kind() {
    assert_eq!(classify_vr(VR::DA), VrClass::Date);
    assert_eq!(classify_vr(VR::TM), VrClass::Time);
    assert_eq!(classify_vr(VR::DT), VrClass::DateTime);
}

#[test]
fn numeric_codes_classify_by_width_and_sign() {
    assert_eq!(classify_vr(VR::US), VrClass::UnsignedShort);
    assert_eq!(classify_vr(VR::UL), VrClass::UnsignedLong);
    assert_eq!(classify_vr(VR::IS), VrClass::IntegerString);
    assert_eq!(classify_vr(VR::DS), VrClass::Float);
    assert_eq!(classify_vr(VR::FL), VrClass::Float);
    assert_eq!(classify_vr(VR::FD), VrClass::Float);
}

#[test]
fn unhandled_codes_fall_to_other() {
    assert_eq!(classify_vr(VR::AE), VrClass::Other);
    assert_eq!(classify_vr(VR::SQ), VrClass::Other);
    assert_eq!(classify_vr(VR::UN), VrClass::Other);
    assert_eq!(classify_vr(VR::OB), VrClass::Other);
    assert_eq!(classify_vr(VR::SS), VrClass::Other);
}
