use zarrista::array_bytes::ArrayBytesOwned;
use zarrista::dtype::{DataType, DataTypeError, TimeUnit, DLPACK_FLOAT};
use zarrista::tensor::{c_order_strides, tensor_byte_len, FixedLengthTensor, Tensor, TensorError, VariableLengthTensor};

#[test]
fn new_accepts_matching_length() {
    // uint8 (1 byte) × shape [4] = 4 bytes.
    let tensor = FixedLengthTensor::new(vec![0u8; 4], DataType::UInt8, vec![4u64]);
    assert!(tensor.is_ok());
}

#[test]
fn new_rejects_mismatched_length() {
    // float32 (4 bytes) × shape [2] needs 8 bytes; supply 7.
    let result = FixedLengthTensor::new(vec![0u8; 7], DataType::Float32, vec![2u64]);
    assert!(matches!(result, Err(TensorError::UnexpectedSize { got: 7, expected: 8 })));
}

#[test]
fn new_rejects_a_variable_size_data_type() {
    let result = FixedLengthTensor::new(vec![], DataType::StringUtf8, vec![0u64]);
    match result {
        Err(TensorError::VariableSizeDataType(name)) => assert_eq!(name, "string / |O"),
        _ => panic!("expected a variable-size error"),
    }
}

#[test]
fn new_rejects_a_shape_whose_size_overflows() {
    let result = FixedLengthTensor::new(vec![], DataType::Float64, vec![u64::MAX, 2]);
    match result {
        Err(e @ TensorError::SizeOverflow { .. }) => {
            assert_eq!(
                e.message(),
                format!("Tensor shape [{}, 2] * item size 8 overflows usize", u64::MAX)
            );
        }
        _ => panic!("expected a size overflow"),
    }
}

#[test]
fn scalar_tensor_holds_one_element() {
    let tensor = FixedLengthTensor::new(vec![1, 2, 3, 4], DataType::Int32, vec![]).unwrap();
    assert_eq!(tensor.bytes(), &[1, 2, 3, 4]);
    assert_eq!(tensor.shape(), &[] as &[u64]);
    let (bytes, _, shape) = tensor.into_inner();
    assert_eq!(bytes, vec![1, 2, 3, 4]);
    assert!(shape.is_empty());
}

#[test]
fn byte_length_multiplies_item_size_and_shape() {
    assert_eq!(tensor_byte_len(4, &[2, 3, 5]).unwrap(), 120);
    assert_eq!(tensor_byte_len(8, &[]).unwrap(), 8);
    assert_eq!(tensor_byte_len(2, &[0, 7]).unwrap(), 0);
    assert!(tensor_byte_len(2, &[u64::MAX / 2 + 1]).is_err());
}

#[test]
fn c_order_strides_of_a_shape() {
    assert_eq!(c_order_strides(4, &[2, 3, 5], 1000).unwrap(), vec![60, 20, 4]);
    assert_eq!(c_order_strides(1, &[7], 10).unwrap(), vec![1]);
    assert_eq!(c_order_strides(4, &[2, 3, 5], 59), None);
}

#[test]
fn buffer_layout_of_a_float32_tensor() {
    let tensor = FixedLengthTensor::new(vec![0u8; 24], DataType::Float32, vec![2, 3]).unwrap();
    let layout = tensor.buffer_layout().unwrap();
    assert_eq!(layout.format, 'f');
    assert_eq!(layout.itemsize, 4);
    assert_eq!(layout.len, 24);
    assert_eq!(layout.ndim, 2);
    assert_eq!(layout.shape, vec![2, 3]);
    assert_eq!(layout.strides, vec![12, 4]);
}

#[test]
fn buffer_layout_refuses_bfloat16() {
    let tensor = FixedLengthTensor::new(vec![0u8; 4], DataType::BFloat16, vec![2]).unwrap();
    assert!(matches!(
        tensor.buffer_layout(),
        Err(TensorError::DataType(DataTypeError::NoBufferFormat(_)))
    ));
}

#[test]
fn dlpack_layout_counts_strides_in_elements() {
    let tensor = FixedLengthTensor::new(vec![0u8; 48], DataType::Float64, vec![2, 3]).unwrap();
    let layout = tensor.dlpack_layout().unwrap();
    assert_eq!(layout.data_type.code, DLPACK_FLOAT);
    assert_eq!(layout.data_type.bits, 64);
    assert_eq!(layout.data_type.lanes, 1);
    assert_eq!(layout.shape, vec![2, 3]);
    assert_eq!(layout.strides, vec![3, 1]);
}

#[test]
fn dlpack_layout_refuses_temporal_data() {
    let dt = DataType::DateTime64 { unit: TimeUnit::Second, scale_factor: 1 };
    let tensor = FixedLengthTensor::new(vec![0u8; 8], dt, vec![1]).unwrap();
    assert!(matches!(
        tensor.dlpack_layout(),
        Err(TensorError::DataType(DataTypeError::NoDLPackType))
    ));
}

#[test]
fn variable_length_elements_are_split_by_offsets() {
    let tensor = VariableLengthTensor::new(b"abcde".to_vec(), vec![0, 2, 2, 5], DataType::Bytes, vec![3]);
    assert_eq!(tensor.elements(), vec![b"ab".to_vec(), vec![], b"cde".to_vec()]);
    assert_eq!(tensor.arrow_offsets(), vec![0i64, 2, 2, 5]);
}

#[test]
fn text_elements_decode_utf8() {
    let tensor = VariableLengthTensor::new(
        "héllo!".as_bytes().to_vec(),
        vec![0, 3, 7],
        DataType::StringUtf8,
        vec![2],
    );
    assert_eq!(tensor.text_elements(), Ok(vec!["hé".to_string(), "llo!".to_string()]));
}

#[test]
fn text_elements_name_the_first_invalid_element() {
    let tensor = VariableLengthTensor::new(
        vec![b'a', 0xff, b'b', 0xfe],
        vec![0, 1, 2, 3, 4],
        DataType::StringUtf8,
        vec![4],
    );
    assert_eq!(tensor.text_elements(), Err(1));
}

#[test]
fn from_array_bytes_picks_the_layout() {
    let fixed = Tensor::from_array_bytes(ArrayBytesOwned::Fixed(vec![0u8; 2]), vec![2], DataType::UInt8);
    assert!(matches!(fixed, Ok(Tensor::Fixed(_))));

    let variable = Tensor::from_array_bytes(
        ArrayBytesOwned::Variable { bytes: b"xy".to_vec(), offsets: vec![0, 1, 2] },
        vec![2],
        DataType::StringUtf8,
    );
    assert!(matches!(variable, Ok(Tensor::Variable(_))));

    let optional = Tensor::from_array_bytes(
        ArrayBytesOwned::Optional { data: Box::new(ArrayBytesOwned::Fixed(vec![0u8; 4])), mask: vec![1, 0] },
        vec![2],
        DataType::UInt16,
    );
    match optional {
        Ok(Tensor::OptionalFixed(t)) => {
            assert_eq!(t.mask.bytes(), &[1, 0]);
            assert_eq!(t.data.bytes(), &[0, 0, 0, 0]);
        }
        _ => panic!("expected an optional fixed-length tensor"),
    }

    let short_mask = Tensor::from_array_bytes(
        ArrayBytesOwned::Optional { data: Box::new(ArrayBytesOwned::Fixed(vec![0u8; 4])), mask: vec![1] },
        vec![2],
        DataType::UInt16,
    );
    assert!(matches!(short_mask, Err(TensorError::UnexpectedSize { got: 1, expected: 2 })));
}

#[test]
fn buffer_layout_of_an_int32_tensor() {
    let tensor = FixedLengthTensor::new(vec![0u8; 24], DataType::Int32, vec![2, 3]).unwrap();
    let layout = tensor.buffer_layout().unwrap();
    assert_eq!(layout.format, 'i');
    assert_eq!(layout.itemsize, 4);
    assert_eq!(layout.len, 24);
    assert_eq!(layout.ndim, 2);
    assert_eq!(layout.shape, vec![2, 3]);
    assert_eq!(layout.strides, vec![12, 4]);
}

#[test]
fn buffer_layout_names_a_dimension_beyond_isize() {
    let big = isize::MAX as u64 + 1;
    let tensor = FixedLengthTensor::new(vec![], DataType::UInt8, vec![0, big]).unwrap();
    match tensor.buffer_layout() {
        Err(e @ TensorError::DimensionOverflow(d)) => {
            assert_eq!(d, big);
            assert_eq!(
                e.message(),
                format!("shape {big} overflows isize: out of range integral type conversion attempted")
            );
        }
        _ => panic!("expected a dimension overflow"),
    }
}

#[test]
fn dlpack_layout_names_a_dimension_beyond_i64() {
    let big = i64::MAX as u64 + 1;
    let tensor = FixedLengthTensor::new(vec![], DataType::UInt8, vec![big, 0]).unwrap();
    match tensor.dlpack_layout() {
        Err(e @ TensorError::DLPackDimensionOverflow(d)) => {
            assert_eq!(d, big);
            assert_eq!(e.message(), "overflow converting shape to i64");
        }
        _ => panic!("expected a dimension overflow"),
    }
}

#[test]
fn tensor_error_messages() {
    let variable = FixedLengthTensor::new(vec![], DataType::StringUtf8, vec![1]).err().unwrap();
    assert_eq!(
        variable.message(),
        "Tensor requires a fixed-size data type, but string / |O is variable-size"
    );
    let short = FixedLengthTensor::new(vec![0u8; 7], DataType::Float32, vec![2]).err().unwrap();
    assert_eq!(short.message(), "got chunk decoded size 7, expected 8");
    assert_eq!(
        TensorError::NdimOverflow(5).message(),
        "ndim 5 overflows c_int: out of range integral type conversion attempted"
    );
    assert_eq!(
        TensorError::LengthOverflow(9).message(),
        "len 9 overflows isize: out of range integral type conversion attempted"
    );
    let bf16 = FixedLengthTensor::new(vec![0u8; 2], DataType::BFloat16, vec![1]).unwrap();
    assert_eq!(
        bf16.buffer_layout().err().unwrap().message(),
        "data type bfloat16 has no buffer-protocol format code"
    );
}

#[test]
fn data_type_error_messages() {
    assert_eq!(DataTypeError::NoDLPackType.message(), "Unsupported data type in dlpack");
    assert_eq!(
        DataTypeError::DLPackLanes(4).message(),
        "the data has 4 lanes per element, but only scalar elements are supported"
    );
    assert_eq!(
        DataTypeError::DLPackUnknown { code: 5, bits: 128 }.message(),
        "the data has DLPack type code 5 at 128 bits, which has no Zarr data type"
    );
    assert_eq!(
        DataTypeError::NoNumpyName("r16".to_string()).message(),
        "data type r16 has no zarr v3 name / numpy mapping"
    );
}

#[test]
fn an_overflowing_prefix_is_refused_even_before_a_zero_dimension() {
    // 8 × u64::MAX overflows before the zero is reached, as in a checked fold.
    assert!(tensor_byte_len(8, &[u64::MAX, 0]).is_err());
    let result = FixedLengthTensor::new(vec![], DataType::Float64, vec![u64::MAX, 0]);
    assert!(matches!(result, Err(TensorError::SizeOverflow { item_size: 8, .. })));
    assert_eq!(tensor_byte_len(8, &[0, u64::MAX]).unwrap(), 0);
}

#[test]
fn buffer_layout_names_string_data_as_zarrs_prints_it() {
    let err = zarrista::dtype::buffer_protocol_format(&DataType::StringUtf8).err().unwrap();
    assert_eq!(err.message(), "data type string / |O has no buffer-protocol format code");
}
