use zarrista::dtype::DataType;
use zarrista::fill_value::{
    context_message, fill_value_conversion, resolve_typed, FillValue, FillValueConversion,
    FillValueError, TypedFillValue,
};

fn typed(bytes: &[u8], data_type: DataType) -> TypedFillValue {
    TypedFillValue { fill_value: FillValue::new(bytes.to_vec()), data_type }
}

#[test]
fn passes_through_a_fill_value_of_the_same_data_type() {
    let dtype = DataType::Int32;
    let object = typed(&(-9999i32).to_ne_bytes(), DataType::Int32);
    let fill_value = resolve_typed(&object, &dtype).unwrap();
    assert_eq!(fill_value.as_ne_bytes(), (-9999i32).to_ne_bytes());
}

#[test]
fn rejects_a_fill_value_of_another_data_type() {
    // int32 and float32 are both 4 bytes, so only the data type tells these apart.
    let object = typed(&(-9999i32).to_ne_bytes(), DataType::Int32);
    let error = match resolve_typed(&object, &DataType::Float32) {
        Err(e) => e,
        Ok(_) => panic!("expected a data type mismatch"),
    };
    assert!(error
        .message()
        .contains("fill value has data type 'int32', but the array has data type 'float32'"));
    let FillValueError::DataTypeMismatch { fill, array } = error;
    assert_eq!(fill, "int32");
    assert_eq!(array, "float32");
}

#[test]
fn equal_bytes_under_different_data_types_differ() {
    let a = typed(&[0, 0, 0, 0], DataType::Int32);
    let b = typed(&[0, 0, 0, 0], DataType::Float32);
    let c = typed(&[0, 0, 0, 0], DataType::Int32);
    let d = typed(&[0, 0, 0, 1], DataType::Int32);
    assert!(!a.same_as(&b));
    assert!(a.same_as(&c));
    assert!(!a.same_as(&d));
}

#[test]
fn equals_all_checks_every_copy() {
    let fill = FillValue::new(vec![1, 2]);
    assert_eq!(fill.size(), 2);
    assert!(fill.equals_all(&[1, 2, 1, 2]));
    assert!(!fill.equals_all(&[1, 2, 2, 1]));
    assert!(!fill.equals_all(&[1, 2, 1]));
}

#[test]
fn text_of_a_string_fill_value() {
    assert_eq!(FillValue::new("naïve".as_bytes().to_vec()).as_text(), Some("naïve".to_string()));
    assert_eq!(FillValue::new(vec![0xc3]).as_text(), None);
}

#[test]
fn conversion_follows_the_data_type() {
    assert_eq!(fill_value_conversion(&DataType::Int8), FillValueConversion::Int8);
    assert_eq!(fill_value_conversion(&DataType::BFloat16), FillValueConversion::BFloat16);
    assert_eq!(fill_value_conversion(&DataType::StringUtf8), FillValueConversion::StringUtf8);
    let complex = DataType::Other {
        name: Some("complex64".to_string()),
        size: Some(8),
        display: "complex64 / <c8".to_string(),
    };
    assert_eq!(fill_value_conversion(&complex), FillValueConversion::Metadata);
}

#[test]
fn rejects_a_value_that_is_not_a_fill_value() {
    let complex = DataType::Other {
        name: Some("complex64".to_string()),
        size: Some(8),
        display: "complex64 / <c8".to_string(),
    };
    // The message names the value and the data type, and the cause names
    // what was wrong with the value.
    let message = context_message(
        "<object object at 0x7f0000000000>",
        &complex,
        "TypeError: a value of type 'object' is not a number or a JSON value",
    );
    assert!(message.contains("as a fill value of data type 'complex64'"));
    assert!(message.contains("not a number or a JSON value"));
    assert_eq!(
        message,
        "cannot use <object object at 0x7f0000000000> as a fill value of data type 'complex64': \
         TypeError: a value of type 'object' is not a number or a JSON value"
    );
}
