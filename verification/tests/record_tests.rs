use dicom::object::{FileDicomObject, FileMetaTableBuilder, InMemDicomObject, StandardDataDictionary};
use dicom_core::{DataElement, PrimitiveValue, Tag, VR};

use dicom_reader::record::{extract_dicom_data, extract_dicom_tags};
use dicom_reader::tag::AttrTag;
use dicom_reader::value::{DateTimeValue, Value};

fn sample_object() -> FileDicomObject<InMemDicomObject<StandardDataDictionary>> {
    let mut obj = InMemDicomObject::new_empty();
    let _ = obj.put(DataElement::new(
        Tag(0x0010, 0x0010),
        VR::PN,
        PrimitiveValue::from("Doe^John"),
    ));
    let _ = obj.put(DataElement::new(Tag(0x0028, 0x0010), VR::US, PrimitiveValue::from(4095u16)));
    let _ = obj.put(DataElement::new(
        Tag(0x0008, 0x0020),
        VR::DA,
        PrimitiveValue::from("20230415"),
    ));
    obj.with_exact_meta(
        FileMetaTableBuilder::new()
            .transfer_syntax("1.2.840.10008.1.2.1")
            .media_storage_sop_class_uid("1.2.840.10008.5.1.4.1.1.7")
            .media_storage_sop_instance_uid("2.25.4242")
            .build()
            .unwrap(),
    )
}

#[test]
fn present_attributes_decode_per_their_representation() {
    let tags = vec![
        AttrTag::new(0x0010, 0x0010),
        AttrTag::new(0x0028, 0x0010),
        AttrTag::new(0x0008, 0x0020),
    ];
    let m = extract_dicom_tags(&sample_object(), &tags);
    assert_eq!(m.get("PatientName"), Some(&Value::String("Doe^John".to_string())));
    assert_eq!(m.get("Rows"), Some(&Value::UnsignedInteger(4095)));
    assert_eq!(
        m.get("StudyDate"),
        Some(&Value::Date(DateTimeValue {
            year: 2023,
            month: 4,
            day: 15,
            hour: 0,
            minute: 0,
            second: 0,
            nanosecond: 0,
        }))
    );
}

#[test]
fn absent_attribute_keeps_its_key_with_a_diagnostic() {
    let tags = vec![AttrTag::new(0x0008, 0x0060)];
    let m = extract_dicom_tags(&sample_object(), &tags);
    assert_eq!(m.len(), 1);
    assert!(m.contains_key("Modality"));
    match m.get("Modality") {
        Some(Value::String(diag)) => assert!(!diag.is_empty()),
        other => panic!("expected a diagnostic text value, got {:?}", other),
    }
}

#[test]
fn record_assembles_path_attributes_and_pixel_absence() {
    let tags = vec![AttrTag::new(0x0010, 0x0010), AttrTag::new(0x0008, 0x0060)];
    let record = extract_dicom_data(sample_object(), "mem.dcm".to_string(), &tags, None);
    assert_eq!(record.path, "mem.dcm");
    assert_eq!(record.tags.len(), 2);
    assert_eq!(record.tags.get("PatientName"), Some(&Value::String("Doe^John".to_string())));
    assert!(record.tags.contains_key("Modality"));
    assert!(record.pixel_data.is_none());
}
