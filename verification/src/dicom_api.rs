use vstd::prelude::*;

use dicom_core::dictionary::{DataDictionary, DataDictionaryEntry};
use dicom_core::{DataElement, Tag, VR};
use dicom::object::{FileDicomObject, InMemDicomObject, StandardDataDictionary};
use dicom::pixeldata::PixelDecoder;

use crate::pixels::checked_dim_product;
use crate::tag::AttrTag;

verus! {

#[verifier::external_type_specification]
#[verifier::external_body]
#[verifier::reject_recursive_types(O)]
pub struct ExFileDicomObject<O>(FileDicomObject<O>);

#[verifier::external_type_specification]
#[verifier::external_body]
#[verifier::reject_recursive_types(D)]
pub struct ExInMemDicomObject<D>(InMemDicomObject<D>);

#[verifier::external_type_specification]
#[verifier::external_body]
pub struct ExStandardDataDictionary(StandardDataDictionary);

#[verifier::external_type_specification]
#[verifier::external_body]
#[verifier::reject_recursive_types(I)]
#[verifier::reject_recursive_types(P)]
pub struct ExDataElement<I, P>(DataElement<I, P>);

/// The in-memory file object that the format decoder produces from one
/// file.
pub type FileObject = FileDicomObject<InMemDicomObject<StandardDataDictionary>>;

/// One data element of the in-memory object.
pub type Element = DataElement<InMemDicomObject<StandardDataDictionary>, Vec<u8>>;

/// What the standard attribute dictionary names the attribute
/// `(group, element)`: the dictionary is a fixed table, so the name is a
/// function of the two numbers alone.
pub uninterp spec fn dict_alias(group: u16, element: u16) -> Option<Seq<char>>;

/// The element the object stores under the tag `(group, element)`, or
/// the display text of the lookup failure. The object is an immutable
/// in-memory table, so the outcome is a function of it and the tag.
pub uninterp spec fn element_of(obj: FileObject, group: u16, element: u16) -> Result<
    Element,
    Seq<char>,
>;

/// The element's value representation code: a field of its header.
pub uninterp spec fn vr_of(el: Element) -> VR;

/// The element's value as one clean string, where it converts to text: a
/// function of the stored value alone.
pub uninterp spec fn text_of(el: Element) -> Option<Seq<char>>;

/// The element's value as a 16-bit unsigned integer, where it converts:
/// a function of the stored value alone.
pub uninterp spec fn u16_of(el: Element) -> Option<u16>;

/// The element's value as a 32-bit unsigned integer, where it converts:
/// a function of the stored value alone.
pub uninterp spec fn u32_of(el: Element) -> Option<u32>;

/// The element's value as a 32-bit signed integer, where it converts: a
/// function of the stored value alone.
pub uninterp spec fn i32_of(el: Element) -> Option<i32>;

/// The IEEE-754 bits of the element's value as a 64-bit floating-point
/// number, where it converts: a function of the stored value alone.
pub uninterp spec fn float_bits_of(el: Element) -> Option<u64>;

/// The object's pixel data decoded and read as 16-bit unsigned samples
/// with their shape. Decoding reads the object alone, so the outcome is
/// a function of it.
pub uninterp spec fn u16_candidate_of(obj: FileObject) -> Option<(Seq<u16>, Seq<usize>)>;

/// The object's pixel data decoded and read as 8-bit unsigned samples
/// with their shape; a function of the object, as for the 16-bit
/// unsigned reading.
pub uninterp spec fn u8_candidate_of(obj: FileObject) -> Option<(Seq<u8>, Seq<usize>)>;

/// The object's pixel data decoded and read as 16-bit signed samples
/// with their shape; a function of the object, as for the 16-bit
/// unsigned reading.
pub uninterp spec fn i16_candidate_of(obj: FileObject) -> Option<(Seq<i16>, Seq<usize>)>;

/// Relies on `StandardDataDictionary::by_tag` and the entry's `alias`: a
/// lookup in the standard dictionary, a fixed table keyed by the tag
/// numbers.
#[verifier::external_body]
pub(crate) fn lookup_alias(tag: AttrTag) -> (r: Option<String>)
    ensures
        match r {
            Some(s) => dict_alias(tag.group, tag.element) == Some(s@),
            None => dict_alias(tag.group, tag.element) is None,
        },
{
    StandardDataDictionary.by_tag(Tag(tag.group, tag.element)).map(
        |e| e.alias().to_string(),
    )
}

/// Relies on `InMemDicomObject::element`: retrieves the data element
/// stored under the given tag, a lookup in the object's element map; an
/// access failure is rendered as its display text.
#[verifier::external_body]
pub(crate) fn get_element<'a>(obj: &'a FileObject, tag: AttrTag) -> (r: Result<&'a Element, String>)
    ensures
        match r {
            Ok(e) => element_of(*obj, tag.group, tag.element) matches Ok(el) && el == *e,
            Err(m) => element_of(*obj, tag.group, tag.element) matches Err(t) && t == m@,
        },
{
    match obj.element(Tag(tag.group, tag.element)) {
        Ok(e) => Ok(e),
        Err(e) => Err(format!("{}", e)),
    }
}

/// Relies on `DataElement::vr`: reads the element's value representation
/// code from its header.
#[verifier::external_body]
pub(crate) fn element_vr(elem: &Element) -> (code: VR)
    ensures
        code == vr_of(*elem),
{
    elem.vr()
}

/// Relies on `DataElement::to_str`: the element's value as one clean
/// string, where the element holds a value convertible to text.
#[verifier::external_body]
pub(crate) fn element_text(elem: &Element) -> (r: Option<String>)
    ensures
        match r {
            Some(s) => text_of(*elem) == Some(s@),
            None => text_of(*elem) is None,
        },
{
    match elem.to_str() {
        Ok(s) => Some(s.into_owned()),
        Err(_) => None,
    }
}

/// Relies on `DataElement::to_int`: the element's value as a 16-bit
/// unsigned integer, where it converts.
#[verifier::external_body]
pub(crate) fn element_u16(elem: &Element) -> (r: Option<u16>)
    ensures
        r == u16_of(*elem),
{
    match elem.to_int::<u16>() {
        Ok(x) => Some(x),
        Err(_) => None,
    }
}

/// Relies on `DataElement::to_int`: the element's value as a 32-bit
/// unsigned integer, where it converts.
#[verifier::external_body]
pub(crate) fn element_u32(elem: &Element) -> (r: Option<u32>)
    ensures
        r == u32_of(*elem),
{
    match elem.to_int::<u32>() {
        Ok(x) => Some(x),
        Err(_) => None,
    }
}

/// Relies on `DataElement::to_int`: the element's value as a 32-bit
/// signed integer, where it converts.
#[verifier::external_body]
pub(crate) fn element_i32(elem: &Element) -> (r: Option<i32>)
    ensures
        r == i32_of(*elem),
{
    match elem.to_int::<i32>() {
        Ok(x) => Some(x),
        Err(_) => None,
    }
}

/// Relies on `DataElement::to_float64`: the element's value as a 64-bit
/// floating-point number, carried as its IEEE-754 bit pattern.
#[verifier::external_body]
pub(crate) fn element_float_bits(elem: &Element) -> (r: Option<u64>)
    ensures
        r == float_bits_of(*elem),
{
    match elem.to_float64() {
        Ok(x) => Some(x.to_bits()),
        Err(_) => None,
    }
}

/// Relies on `PixelDecoder::decode_pixel_data` and
/// `DecodedPixelData::to_ndarray`: probes the object's pixel data as
/// 16-bit unsigned samples. Both steps read the object alone. The
/// dimensions of a yielded array always multiply out, within the
/// machine's range, to its element count.
#[verifier::external_body]
pub(crate) fn probe_pixel_u16(obj: &FileObject) -> (r: Option<(Vec<u16>, Vec<usize>)>)
    ensures
        match r {
            Some(c) => u16_candidate_of(*obj) matches Some(s) && s.0 == c.0@ && s.1 == c.1@
                && checked_dim_product(c.1@) == Some(c.0@.len() as int),
            None => u16_candidate_of(*obj) is None,
        },
{
    let pd = match obj.decode_pixel_data() {
        Ok(pd) => pd,
        Err(_) => return None,
    };
    match pd.to_ndarray::<u16>() {
        Ok(a) => Some((a.iter().cloned().collect(), a.shape().to_vec())),
        Err(_) => None,
    }
}

/// Relies on `PixelDecoder::decode_pixel_data` and
/// `DecodedPixelData::to_ndarray`: probes the object's pixel data as
/// 8-bit unsigned samples, as for the 16-bit unsigned probe.
#[verifier::external_body]
pub(crate) fn probe_pixel_u8(obj: &FileObject) -> (r: Option<(Vec<u8>, Vec<usize>)>)
    ensures
        match r {
            Some(c) => u8_candidate_of(*obj) matches Some(s) && s.0 == c.0@ && s.1 == c.1@
                && checked_dim_product(c.1@) == Some(c.0@.len() as int),
            None => u8_candidate_of(*obj) is None,
        },
{
    let pd = match obj.decode_pixel_data() {
        Ok(pd) => pd,
        Err(_) => return None,
    };
    match pd.to_ndarray::<u8>() {
        Ok(a) => Some((a.iter().cloned().collect(), a.shape().to_vec())),
        Err(_) => None,
    }
}

/// Relies on `PixelDecoder::decode_pixel_data` and
/// `DecodedPixelData::to_ndarray`: probes the object's pixel data as
/// 16-bit signed samples, as for the 16-bit unsigned probe.
#[verifier::external_body]
pub(crate) fn probe_pixel_i16(obj: &FileObject) -> (r: Option<(Vec<i16>, Vec<usize>)>)
    ensures
        match r {
            Some(c) => i16_candidate_of(*obj) matches Some(s) && s.0 == c.0@ && s.1 == c.1@
                && checked_dim_product(c.1@) == Some(c.0@.len() as int),
            None => i16_candidate_of(*obj) is None,
        },
{
    let pd = match obj.decode_pixel_data() {
        Ok(pd) => pd,
        Err(_) => return None,
    };
    match pd.to_ndarray::<i16>() {
        Ok(a) => Some((a.iter().cloned().collect(), a.shape().to_vec())),
        Err(_) => None,
    }
}

} // verus!
