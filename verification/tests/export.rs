use zarrista::dtype::DataType;
use zarrista::export::{
    arrow_offsets, fixed_array_coercion, needs_dtype_comparison, text_elements,
    variable_array_coercion, variable_elements, ArrayCoercion, CoercionError, ExportTarget,
    VariableElements,
};

#[test]
fn zero_copy_request_returns_the_view_or_fails() {
    assert_eq!(fixed_array_coercion(Some(false), false, false), Ok(ArrayCoercion::View));
    assert_eq!(fixed_array_coercion(Some(false), true, true), Ok(ArrayCoercion::View));
    let err = fixed_array_coercion(Some(false), true, false).unwrap_err();
    assert_eq!(err, CoercionError::ZeroCopyWithOtherDtype);
    assert_eq!(err.message(), "cannot return a zero-copy array with a different dtype");
}

#[test]
fn other_requests_convert_copy_or_view() {
    assert_eq!(fixed_array_coercion(None, true, false), Ok(ArrayCoercion::Convert));
    assert_eq!(fixed_array_coercion(Some(true), true, true), Ok(ArrayCoercion::Convert));
    assert_eq!(fixed_array_coercion(Some(true), false, false), Ok(ArrayCoercion::Copy));
    assert_eq!(fixed_array_coercion(None, false, false), Ok(ArrayCoercion::View));
}

#[test]
fn dtype_is_compared_only_for_zero_copy_requests() {
    assert!(needs_dtype_comparison(Some(false), true));
    assert!(!needs_dtype_comparison(Some(false), false));
    assert!(!needs_dtype_comparison(Some(true), true));
    assert!(!needs_dtype_comparison(None, true));
}

#[test]
fn variable_length_data_is_always_copied() {
    let err = variable_array_coercion(Some(false), false).unwrap_err();
    assert_eq!(err, CoercionError::ZeroCopyOfVariableLength);
    assert_eq!(err.message(), "cannot return a zero-copy array from variable-length data");
    assert_eq!(variable_array_coercion(None, false), Ok(ArrayCoercion::View));
    assert_eq!(variable_array_coercion(Some(true), true), Ok(ArrayCoercion::Convert));
}

#[test]
fn variable_length_export_types() {
    assert_eq!(variable_elements(&DataType::StringUtf8, ExportTarget::Arrow).unwrap(), VariableElements::Text);
    assert_eq!(variable_elements(&DataType::Bytes, ExportTarget::NumPy).unwrap(), VariableElements::Binary);
    let other = DataType::Other { name: Some("vlen".to_string()), size: None, display: "vlen".to_string() };
    let err = variable_elements(&other, ExportTarget::Arrow).unwrap_err();
    assert_eq!(err.message(), "Arrow export of variable-length data type vlen is not supported");
    let err = variable_elements(&other, ExportTarget::NumPy).unwrap_err();
    assert_eq!(err.message(), "NumPy export of variable-length data type vlen is not supported");
}

#[test]
fn arrow_offsets_keep_their_values() {
    assert_eq!(arrow_offsets(&[0, 3, 3, 10]), vec![0i64, 3, 3, 10]);
    assert_eq!(arrow_offsets(&[0]), vec![0i64]);
}

#[test]
fn text_elements_of_raw_parts() {
    assert_eq!(text_elements(b"abc", &[0, 1, 3]), Ok(vec!["a".to_string(), "bc".to_string()]));
    assert_eq!(text_elements(b"", &[0]), Ok(vec![]));
    // 0xe2 0x82 0xac is the euro sign; split in two it is invalid.
    assert_eq!(text_elements(&[0xe2, 0x82, 0xac], &[0, 3]), Ok(vec!["\u{20ac}".to_string()]));
    assert_eq!(text_elements(&[0xe2, 0x82, 0xac], &[0, 1, 3]), Err(0));
}
