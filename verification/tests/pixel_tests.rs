use dicom_reader::pixels::{select_pixel_samples, FloatSamples, SampleArray};

#[test]
fn sample_array_accepts_matching_shape() {
    let a = SampleArray::new(vec![1, 2, 3, 4, 5, 6], vec![2, 3]).unwrap();
    assert_eq!(a.data(), &vec![1, 2, 3, 4, 5, 6]);
    assert_eq!(a.shape(), &vec![2, 3]);
}

#[test]
fn sample_array_rejects_mismatched_shape() {
    assert!(SampleArray::new(vec![1, 2, 3], vec![2, 2]).is_none());
}

#[test]
fn sample_array_rejects_overflowing_shape() {
    assert!(SampleArray::new(Vec::new(), vec![usize::MAX, usize::MAX, 0]).is_none());
}

#[test]
fn sample_array_accepts_empty_dimension() {
    let a = SampleArray::new(Vec::new(), vec![4, 0, 2]).unwrap();
    assert_eq!(a.data().len(), 0);
}

#[test]
fn sixteen_bit_unsigned_outranks_eight_bit() {
    let r = select_pixel_samples(
        Some((vec![256, 512], vec![1, 1, 2, 1])),
        Some((vec![1, 2], vec![1, 1, 2, 1])),
        None,
        None,
    )
    .unwrap();
    assert_eq!(r.data(), &vec![256, 512]);
    assert_eq!(r.shape(), &vec![1, 1, 2, 1]);
}

#[test]
fn eight_bit_candidate_used_when_first_absent() {
    let r = select_pixel_samples(None, Some((vec![7, 8, 9], vec![3])), None, None).unwrap();
    assert_eq!(r.data(), &vec![7, 8, 9]);
}

#[test]
fn sixteen_bit_signed_preserves_negative_samples() {
    let r = select_pixel_samples(None, None, Some((vec![-5, 1000], vec![2])), None).unwrap();
    assert_eq!(r.data(), &vec![-5, 1000]);
}

#[test]
fn float_fallback_used_only_when_integer_candidates_fail() {
    let fallback = FloatSamples { data: vec![3, -1], shape: vec![2] };
    let r = select_pixel_samples(None, None, None, Some(fallback)).unwrap();
    assert_eq!(r.data(), &vec![3, -1]);
}

#[test]
fn first_candidate_with_bad_shape_yields_nothing() {
    // The first present candidate is chosen even where shaping it fails;
    // later candidates are not consulted.
    let r = select_pixel_samples(
        Some((vec![1, 2, 3], vec![2, 2])),
        Some((vec![9], vec![1])),
        None,
        None,
    );
    assert!(r.is_none());
}

#[test]
fn no_candidate_yields_nothing() {
    assert!(select_pixel_samples(None, None, None, None).is_none());
}

#[test]
fn truncating_float_samples_arrive_pretruncated() {
    // The driver truncates the floating-point probe before handing it in.
    let samples: Vec<i32> = [2.9f64, -1.2f64].iter().map(|&x| x as i32).collect();
    let r = select_pixel_samples(None, None, None, Some(FloatSamples { data: samples, shape: vec![2] }))
        .unwrap();
    assert_eq!(r.data(), &vec![2, -1]);
}
