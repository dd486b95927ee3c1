use vstd::prelude::*;

use crate::dicom_api::{
    element_of, get_element, i16_candidate_of, probe_pixel_i16, probe_pixel_u16, probe_pixel_u8,
    u16_candidate_of, u8_candidate_of, FileObject,
};
use crate::tag::AttrTag;

verus! {

/// Samples obtained outside the library from the floating-point
/// interpretation of a pixel buffer, already truncated to 32-bit signed
/// integers. Floating-point conversion cannot stand in the library, so
/// the driver probes that encoding and hands the outcome in; the library
/// uses it only after every integer encoding has failed.
#[derive(Debug, Clone, PartialEq)]
pub struct FloatSamples {
    pub data: Vec<i32>,
    pub shape: Vec<usize>,
}

/// The number of samples a shape calls for: the product of its
/// dimensions, or nothing where a partial product already leaves the
/// machine's range.
pub open spec fn checked_dim_product(dims: Seq<usize>) -> Option<int>
    decreases dims.len(),
{
    if dims.len() == 0 {
        Some(1)
    } else {
        match checked_dim_product(dims.drop_last()) {
            Some(p) => if p * dims.last() <= usize::MAX {
                Some(p * dims.last())
            } else {
                None
            },
            None => None,
        }
    }
}

/// A shaped buffer of 32-bit signed samples: a flat data vector together
/// with the dimensions it fills exactly.
#[derive(Debug, Clone, PartialEq)]
pub struct SampleArray {
    data: Vec<i32>,
    shape: Vec<usize>,
}

impl SampleArray {
    /// The samples, flattened in row-major order.
    pub closed spec fn samples(self) -> Seq<i32> {
        self.data@
    }

    /// The dimensions of the array.
    pub closed spec fn dims(self) -> Seq<usize> {
        self.shape@
    }

    /// Internal validity: the dimensions multiply out, without leaving the
    /// machine's range, to exactly the number of samples held.
    pub open spec fn wf(self) -> bool {
        checked_dim_product(self.dims()) == Some(self.samples().len() as int)
    }

    /// Shapes `data` into an array with dimensions `shape`. Fails exactly
    /// where the dimensions do not multiply out to the data's length —
    /// including where the product leaves the machine's range, in which
    /// case no length could match.
    pub fn new(data: Vec<i32>, shape: Vec<usize>) -> (r: Option<SampleArray>)
        ensures
            match r {
                Some(a) => {
                    &&& a.wf()
                    &&& a.samples() == data@
                    &&& a.dims() == shape@
                    &&& checked_dim_product(shape@) == Some(data@.len() as int)
                },
                None => checked_dim_product(shape@) != Some(data@.len() as int),
            },
    {
        let n = shape.len();
        let mut i: usize = 0;
        let mut prod: usize = 1;
        while i < n
            invariant
                i <= n,
                n == shape@.len(),
                checked_dim_product(shape@.take(i as int)) == Some(prod as int),
            decreases n - i,
        {
            let ghost pre = shape@.take(i as int);
            match prod.checked_mul(shape[i]) {
                Some(p) => {
                    prod = p;
                },
                None => {
                    proof {
                        assert(shape@.take(i + 1).drop_last() =~= pre);
                        lemma_checked_dim_product_none_prefix(shape@, i + 1);
                    }
                    return None;
                },
            }
            proof {
                assert(shape@.take(i + 1).drop_last() =~= pre);
            }
            i += 1;
        }
        proof {
            assert(shape@.take(n as int) =~= shape@);
        }
        if prod == data.len() {
            Some(SampleArray { data, shape })
        } else {
            None
        }
    }

    /// The samples, for consumers of the finished record.
    pub fn data(&self) -> (r: &Vec<i32>)
        ensures
            r@ == self.samples(),
    {
        &self.data
    }

    /// The dimensions, for consumers of the finished record.
    pub fn shape(&self) -> (r: &Vec<usize>)
        ensures
            r@ == self.dims(),
    {
        &self.shape
    }
}

/// Once a prefix of the dimensions already overflows, the whole product
/// does.
proof fn lemma_checked_dim_product_none_prefix(dims: Seq<usize>, i: int)
    requires
        0 <= i <= dims.len(),
        checked_dim_product(dims.take(i)) is None,
    ensures
        checked_dim_product(dims) is None,
    decreases dims.len() - i,
{
    if i == dims.len() {
        assert(dims.take(i) =~= dims);
    } else {
        assert(dims.take(i + 1).drop_last() =~= dims.take(i));
        lemma_checked_dim_product_none_prefix(dims, i + 1);
    }
}

/// What building an array from a candidate's data and shape yields: the
/// shaped array where the dimensions match the data, nothing otherwise.
pub open spec fn built_from(r: Option<SampleArray>, data: Seq<i32>, shape: Seq<usize>) -> bool {
    if checked_dim_product(shape) == Some(data.len() as int) {
        r matches Some(a) && a.wf() && a.samples() == data && a.dims() == shape
    } else {
        r is None
    }
}

/// Widens 16-bit unsigned samples to the record's 32-bit signed kind.
pub fn widen_u16(v: &Vec<u16>) -> (r: Vec<i32>)
    ensures
        r@ == v@.map_values(|x: u16| x as i32),
{
    let n = v.len();
    let mut r: Vec<i32> = Vec::new();
    let mut i: usize = 0;
    while i < n
        invariant
            i <= n,
            n == v@.len(),
            r@ == v@.take(i as int).map_values(|x: u16| x as i32),
        decreases n - i,
    {
        r.push(v[i] as i32);
        proof {
            assert(v@.take(i + 1).drop_last() =~= v@.take(i as int));
            assert(r@ =~= v@.take(i + 1).map_values(|x: u16| x as i32));
        }
        i += 1;
    }
    proof {
        assert(v@.take(n as int) =~= v@);
    }
    r
}

/// Widens 8-bit unsigned samples to the record's 32-bit signed kind.
pub fn widen_u8(v: &Vec<u8>) -> (r: Vec<i32>)
    ensures
        r@ == v@.map_values(|x: u8| x as i32),
{
    let n = v.len();
    let mut r: Vec<i32> = Vec::new();
    let mut i: usize = 0;
    while i < n
        invariant
            i <= n,
            n == v@.len(),
            r@ == v@.take(i as int).map_values(|x: u8| x as i32),
        decreases n - i,
    {
        r.push(v[i] as i32);
        proof {
            assert(v@.take(i + 1).drop_last() =~= v@.take(i as int));
            assert(r@ =~= v@.take(i + 1).map_values(|x: u8| x as i32));
        }
        i += 1;
    }
    proof {
        assert(v@.take(n as int) =~= v@);
    }
    r
}

/// Widens 16-bit signed samples to the record's 32-bit signed kind,
/// preserving negative values.
pub fn widen_i16(v: &Vec<i16>) -> (r: Vec<i32>)
    ensures
        r@ == v@.map_values(|x: i16| x as i32),
{
    let n = v.len();
    let mut r: Vec<i32> = Vec::new();
    let mut i: usize = 0;
    while i < n
        invariant
            i <= n,
            n == v@.len(),
            r@ == v@.take(i as int).map_values(|x: i16| x as i32),
        decreases n - i,
    {
        r.push(v[i] as i32);
        proof {
            assert(v@.take(i + 1).drop_last() =~= v@.take(i as int));
            assert(r@ =~= v@.take(i + 1).map_values(|x: i16| x as i32));
        }
        i += 1;
    }
    proof {
        assert(v@.take(n as int) =~= v@);
    }
    r
}

/// Chooses among the candidate interpretations of a pixel buffer in the
/// fixed priority order — 16-bit unsigned, 8-bit unsigned, 16-bit signed,
/// then the floating-point fallback — and shapes the first candidate
/// present into the record's sample array. Candidates after the first
/// present one play no part, even where shaping the first fails.
pub fn select_pixel_samples(
    c_u16: Option<(Vec<u16>, Vec<usize>)>,
    c_u8: Option<(Vec<u8>, Vec<usize>)>,
    c_i16: Option<(Vec<i16>, Vec<usize>)>,
    fallback: Option<FloatSamples>,
) -> (r: Option<SampleArray>)
    ensures
        c_u16 matches Some(c) ==> built_from(r, c.0@.map_values(|x: u16| x as i32), c.1@),
        c_u16 is None ==> (c_u8 matches Some(c) ==> built_from(
            r,
            c.0@.map_values(|x: u8| x as i32),
            c.1@,
        )),
        c_u16 is None && c_u8 is None ==> (c_i16 matches Some(c) ==> built_from(
            r,
            c.0@.map_values(|x: i16| x as i32),
            c.1@,
        )),
        c_u16 is None && c_u8 is None && c_i16 is None ==> (fallback matches Some(c) ==> built_from(
            r,
            c.data@,
            c.shape@,
        )),
        c_u16 is None && c_u8 is None && c_i16 is None && fallback is None ==> r is None,
        r matches Some(a) ==> a.wf(),
{
    if let Some((data, shape)) = c_u16 {
        return SampleArray::new(widen_u16(&data), shape);
    }
    if let Some((data, shape)) = c_u8 {
        return SampleArray::new(widen_u8(&data), shape);
    }
    if let Some((data, shape)) = c_i16 {
        return SampleArray::new(widen_i16(&data), shape);
    }
    if let Some(fs) = fallback {
        return SampleArray::new(fs.data, fs.shape);
    }
    None
}

/// What extracting pixel samples from a file object yields, in terms of
/// the named probe outcomes: nothing where the pixel-data element is
/// absent; otherwise the first candidate present in the priority order —
/// 16-bit unsigned, 8-bit unsigned, 16-bit signed, then the
/// floating-point fallback — shaped into the record's sample array, and
/// nothing where no candidate is present.
pub open spec fn spec_extracted_pixels(
    obj: FileObject,
    fallback: Option<FloatSamples>,
    r: Option<SampleArray>,
) -> bool {
    if element_of(obj, 0x7FE0, 0x0010) is Err {
        r is None
    } else {
        match u16_candidate_of(obj) {
            Some(c) => built_from(r, c.0.map_values(|x: u16| x as i32), c.1),
            None => match u8_candidate_of(obj) {
                Some(c) => built_from(r, c.0.map_values(|x: u8| x as i32), c.1),
                None => match i16_candidate_of(obj) {
                    Some(c) => built_from(r, c.0.map_values(|x: i16| x as i32), c.1),
                    None => match fallback {
                        Some(fs) => built_from(r, fs.data@, fs.shape@),
                        None => r is None,
                    },
                },
            },
        }
    }
}

/// Attempts to obtain the pixel samples of a file: nothing where the
/// pixel-data element is absent, otherwise the first interpretation in
/// the priority order that converts, shaped into a sample array. The
/// floating-point candidate is probed by the driver and handed in
/// through `float_samples`.
pub fn extract_dicom_pixel_data(obj: &FileObject, float_samples: Option<FloatSamples>) -> (r:
    Option<SampleArray>)
    ensures
        spec_extracted_pixels(*obj, float_samples, r),
        r matches Some(a) ==> a.wf(),
{
    match get_element(obj, AttrTag { group: 0x7FE0, element: 0x0010 }) {
        Ok(_) => {},
        Err(_) => {
            return None;
        },
    }
    let c_u16 = probe_pixel_u16(obj);
    let c_u8 = probe_pixel_u8(obj);
    let c_i16 = probe_pixel_i16(obj);
    select_pixel_samples(c_u16, c_u8, c_i16, float_samples)
}

} // verus!
