use vstd::prelude::*;

use crate::attrmap::AttrMap;
use crate::decode::{decode_element, spec_decode_element};
use crate::dicom_api::{
    dict_alias, element_of, element_vr, get_element, lookup_alias, vr_of, Element, FileObject,
};
use crate::pixels::{extract_dicom_pixel_data, spec_extracted_pixels, FloatSamples, SampleArray};
use crate::tag::AttrTag;
use crate::value::{value_wf, Value};
use crate::vr::{classify_vr, spec_classify_vr};

verus! {

/// The display name under which an attribute is recorded: the standard
/// dictionary's name for its tag, or the fixed fallback label where the
/// tag is not registered.
pub open spec fn spec_tag_name(t: AttrTag) -> Seq<char> {
    match dict_alias(t.group, t.element) {
        Some(s) => s,
        None => "Unknown Tag"@,
    }
}

/// Resolves an attribute tag to its display name.
pub fn attribute_name(tag: AttrTag) -> (name: String)
    ensures
        name@ == spec_tag_name(tag),
{
    match lookup_alias(tag) {
        Some(s) => s,
        None => String::from_str("Unknown Tag"),
    }
}

/// Decodes the outcome of one attribute lookup: a found element through
/// the conversion its value representation's handling class demands, a
/// failed lookup as its diagnostic text, recorded verbatim.
pub fn decode_fetched(fetched: Result<&Element, String>) -> (v: Value)
    ensures
        fetched matches Err(m) ==> v == Value::String(m),
        fetched matches Ok(e) ==> spec_decode_element(*e, spec_classify_vr(vr_of(*e)), v),
        value_wf(v),
{
    match fetched {
        Ok(elem) => {
            let class = classify_vr(element_vr(elem));
            decode_element(elem, class)
        },
        Err(message) => Value::String(message),
    }
}

/// Whether no later requested attribute shares the display name of the
/// one at position `i`; the mapping stores the last value per name.
pub open spec fn last_of_name_below(tags: Seq<AttrTag>, i: int, bound: int) -> bool {
    forall|j: int| i < j < bound ==> spec_tag_name(#[trigger] tags[j]) != spec_tag_name(tags[i])
}

/// The value the mapping records for the attribute `t` of the object:
/// the decoded element where the lookup finds one, the lookup's
/// diagnostic text otherwise.
pub open spec fn spec_attr_value(obj: FileObject, t: AttrTag, v: Value) -> bool {
    match element_of(obj, t.group, t.element) {
        Ok(el) => spec_decode_element(el, spec_classify_vr(vr_of(el)), v),
        Err(msg) => v matches Value::String(s) && s@ == msg,
    }
}

/// Decodes the requested attributes of one file object into the record's
/// name-to-value mapping. Every requested attribute appears under its
/// display name — an attribute absent from the file is recorded as a
/// diagnostic text value, never omitted — and nothing else appears.
pub fn extract_dicom_tags(obj: &FileObject, tags: &Vec<AttrTag>) -> (m: AttrMap)
    ensures
        m.wf(),
        forall|i: int| 0 <= i < tags@.len() ==> m@.contains_key(#[trigger] spec_tag_name(tags@[i])),
        forall|k: Seq<char>|
            m@.contains_key(k) ==> exists|i: int|
                0 <= i < tags@.len() && spec_tag_name(#[trigger] tags@[i]) == k,
        forall|k: Seq<char>| m@.contains_key(k) ==> value_wf(#[trigger] m@[k]),
        forall|i: int|
            0 <= i < tags@.len() && last_of_name_below(tags@, i, tags@.len() as int)
                ==> spec_attr_value(*obj, #[trigger] tags@[i], m@[spec_tag_name(tags@[i])]),
{
    let mut m = AttrMap::new();
    let n = tags.len();
    let mut idx: usize = 0;
    while idx < n
        invariant
            idx <= n,
            n == tags@.len(),
            m.wf(),
            forall|i: int| 0 <= i < idx ==> m@.contains_key(#[trigger] spec_tag_name(tags@[i])),
            forall|k: Seq<char>|
                m@.contains_key(k) ==> exists|i: int|
                    0 <= i < idx && spec_tag_name(#[trigger] tags@[i]) == k,
            forall|k: Seq<char>| m@.contains_key(k) ==> value_wf(#[trigger] m@[k]),
            forall|i: int|
                0 <= i < idx && last_of_name_below(tags@, i, idx as int)
                    ==> spec_attr_value(*obj, #[trigger] tags@[i], m@[spec_tag_name(tags@[i])]),
        decreases n - idx,
    {
        let tag = tags[idx];
        let name = attribute_name(tag);
        let fetched = get_element(obj, tag);
        let value = decode_fetched(fetched);
        let ghost before = m@;
        m.insert(name, value);
        proof {
            assert(spec_tag_name(tags@[idx as int]) == name@);
            assert(spec_attr_value(*obj, tags@[idx as int], value));
            assert forall|i: int|
                0 <= i < idx + 1 && last_of_name_below(tags@, i, idx + 1)
                    implies spec_attr_value(
                *obj,
                #[trigger] tags@[i],
                m@[spec_tag_name(tags@[i])],
            ) by {
                if i < idx {
                    // the new entry's name differs from this one, so its
                    // stored value is untouched
                    assert(spec_tag_name(tags@[idx as int]) != spec_tag_name(tags@[i]));
                    assert(last_of_name_below(tags@, i, idx as int));
                    assert(m@[spec_tag_name(tags@[i])] == before[spec_tag_name(tags@[i])]);
                }
            }
        }
        idx += 1;
    }
    m
}

/// The complete extraction result for one file: the identifying path, the
/// decoded attribute mapping, and the pixel samples where the file holds
/// decodable pixel data.
#[derive(Debug, Clone, PartialEq)]
pub struct DicomData {
    /// The path of the originating file.
    pub path: String,
    /// The decoded attributes, keyed by display name.
    pub tags: AttrMap,
    /// The pixel samples, where present and decodable.
    pub pixel_data: Option<SampleArray>,
}

impl DicomData {
    /// Validity of the parts: unique attribute names, every stored value
    /// with its fields in range, and a consistent sample array.
    pub open spec fn wf(self) -> bool {
        &&& self.tags.wf()
        &&& (forall|k: Seq<char>| self.tags@.contains_key(k) ==> value_wf(#[trigger] self.tags@[k]))
        &&& (self.pixel_data matches Some(a) ==> a.wf())
    }
}

/// Assembles the record of one file: decodes every requested attribute,
/// then attempts the pixel samples, and composes both with the path.
/// Never fails — attribute and pixel fallibility is absorbed by the two
/// sub-steps. The floating-point pixel candidate is probed by the driver
/// and handed in through `float_samples`.
pub fn extract_dicom_data(
    obj: FileObject,
    path: String,
    tags: &Vec<AttrTag>,
    float_samples: Option<FloatSamples>,
) -> (d: DicomData)
    ensures
        d.wf(),
        d.path == path,
        forall|i: int|
            0 <= i < tags@.len() ==> d.tags@.contains_key(#[trigger] spec_tag_name(tags@[i])),
        forall|k: Seq<char>|
            d.tags@.contains_key(k) ==> exists|i: int|
                0 <= i < tags@.len() && spec_tag_name(#[trigger] tags@[i]) == k,
        forall|i: int|
            0 <= i < tags@.len() && last_of_name_below(tags@, i, tags@.len() as int)
                ==> spec_attr_value(obj, #[trigger] tags@[i], d.tags@[spec_tag_name(tags@[i])]),
        spec_extracted_pixels(obj, float_samples, d.pixel_data),
{
    let tags_map = extract_dicom_tags(&obj, tags);
    let pixel_data = extract_dicom_pixel_data(&obj, float_samples);
    DicomData { path, tags: tags_map, pixel_data }
}

} // verus!
