use zarrista::dtype::DataType;
use zarrista::input::{check_typed_input, shape_from_dlpack, DLPackShapeError, DataInputError};

#[test]
fn matching_input_is_accepted() {
    assert!(check_typed_input(&DataType::Int16, &[2, 3], &DataType::Int16, &[2, 3]).is_ok());
}

#[test]
fn a_cast_must_be_asked_for() {
    let err = check_typed_input(&DataType::Float64, &[2], &DataType::Float32, &[2]).unwrap_err();
    assert_eq!(err.message(), "the data has type float64, but the array has type float32.");
    assert!(matches!(err, DataInputError::TypeMismatch { .. }));
}

#[test]
fn shapes_must_match() {
    let err = check_typed_input(&DataType::UInt8, &[4, 5], &DataType::UInt8, &[4]).unwrap_err();
    assert_eq!(err.message(), "the data has shape [4, 5], but the destination has shape [4].");
    let err = check_typed_input(&DataType::UInt8, &[], &DataType::UInt8, &[1]).unwrap_err();
    assert_eq!(err.message(), "the data has shape [], but the destination has shape [1].");
}

#[test]
fn dlpack_shapes_are_non_negative() {
    assert_eq!(shape_from_dlpack(&[3, 0, 7]).unwrap(), vec![3, 0, 7]);
    assert_eq!(shape_from_dlpack(&[3, -1]), Err(DLPackShapeError::NegativeDimension));
}
