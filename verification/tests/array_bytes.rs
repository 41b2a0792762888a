use zarrista::array_bytes::{ArrayBytesError, ArrayBytesKind, ArrayBytesOwned};

#[test]
fn from_parts_picks_the_layout() {
    let fixed = ArrayBytesOwned::from_parts(vec![1, 2, 3], None, None);
    assert_eq!(fixed.kind(), ArrayBytesKind::Fixed);
    assert_eq!(fixed.element_offsets(), None);
    assert_eq!(fixed.validity_mask(), None);

    let variable = ArrayBytesOwned::from_parts(b"abc".to_vec(), None, Some(vec![0, 1, 3]));
    assert_eq!(variable.kind(), ArrayBytesKind::Variable);
    assert_eq!(variable.element_offsets(), Some(&vec![0, 1, 3]));

    let optional = ArrayBytesOwned::from_parts(b"abc".to_vec(), Some(vec![1, 0]), Some(vec![0, 1, 3]));
    assert_eq!(optional.kind(), ArrayBytesKind::Optional);
    assert_eq!(optional.element_bytes(), &b"abc".to_vec());
    assert_eq!(optional.element_offsets(), Some(&vec![0, 1, 3]));
    assert_eq!(optional.validity_mask(), Some(&vec![1, 0]));
}

#[test]
fn reprs_name_the_layout_and_size() {
    assert_eq!(ArrayBytesOwned::from_parts(vec![0; 16], None, None).repr(), "ArrayBytes(<fixed>, 16 bytes)");
    assert_eq!(
        ArrayBytesOwned::from_parts(vec![0; 3], None, Some(vec![0, 3])).repr(),
        "ArrayBytes(<variable>, 3 bytes)"
    );
    assert_eq!(
        ArrayBytesOwned::from_parts(vec![], Some(vec![]), None).repr(),
        "ArrayBytes(<optional>, 0 bytes)"
    );
}

#[test]
fn offsets_are_checked() {
    assert_eq!(ArrayBytesOwned::from_parts(vec![0; 4], None, Some(vec![0, 2, 4])).check(), Ok(()));
    assert_eq!(
        ArrayBytesOwned::from_parts(vec![0; 4], None, Some(vec![])).check(),
        Err(ArrayBytesError::OffsetsZeroLength)
    );
    assert_eq!(
        ArrayBytesOwned::from_parts(vec![0; 4], None, Some(vec![0, 3, 2])).check(),
        Err(ArrayBytesError::OffsetsNotMonotonicallyIncreasing)
    );
    assert_eq!(
        ArrayBytesOwned::from_parts(vec![0; 4], Some(vec![1]), Some(vec![0, 5])).check(),
        Err(ArrayBytesError::OffsetOutOfBounds { offset: 5, len: 4 })
    );
    assert_eq!(ArrayBytesOwned::from_parts(vec![0; 4], None, None).check(), Ok(()));
}
