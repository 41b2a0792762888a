use zarrista::dtype::{
    buffer_protocol_format, data_type_display, dlpack_from_zarr, numpy_dtype_name,
    numpy_temporal_name, numpy_time_unit_code, zarrs_display, zarr_from_dlpack, DLPackType, DataType,
    DataTypeError, TemporalKind, TimeUnit, DLPACK_BFLOAT, DLPACK_BOOL, DLPACK_INT, DLPACK_UINT,
};

fn other(name: Option<&str>, size: Option<usize>, display: &str) -> DataType {
    DataType::Other { name: name.map(|n| n.to_string()), size, display: display.to_string() }
}

#[test]
fn temporal_names_always_write_the_scale_factor() {
    assert_eq!(numpy_temporal_name(TemporalKind::DateTime64, TimeUnit::Second, 10), "datetime64[10s]");
    assert_eq!(numpy_temporal_name(TemporalKind::DateTime64, TimeUnit::Second, 1), "datetime64[1s]");
    assert_eq!(
        numpy_temporal_name(TemporalKind::TimeDelta64, TimeUnit::Microsecond, 250),
        "timedelta64[250us]"
    );
    assert_eq!(numpy_temporal_name(TemporalKind::TimeDelta64, TimeUnit::Generic, 7), "timedelta64");
}

#[test]
fn time_unit_codes() {
    assert_eq!(numpy_time_unit_code(TimeUnit::Generic), None);
    assert_eq!(numpy_time_unit_code(TimeUnit::Month), Some("M"));
    assert_eq!(numpy_time_unit_code(TimeUnit::Minute), Some("m"));
    assert_eq!(numpy_time_unit_code(TimeUnit::Attosecond), Some("as"));
}

#[test]
fn numpy_names_of_data_types() {
    assert_eq!(numpy_dtype_name(&DataType::Float32).unwrap(), "float32");
    assert_eq!(numpy_dtype_name(&DataType::Bool).unwrap(), "bool");
    let dt = DataType::DateTime64 { unit: TimeUnit::Day, scale_factor: 3 };
    assert_eq!(numpy_dtype_name(&dt).unwrap(), "datetime64[3D]");
    let c64 = other(Some("complex_float32"), Some(8), "complex_float32 / <c8");
    assert_eq!(numpy_dtype_name(&c64).unwrap(), "complex64");
    let c128 = other(Some("complex_float64"), Some(16), "complex_float64 / <c16");
    assert_eq!(numpy_dtype_name(&c128).unwrap(), "complex128");
    let named = other(Some("complex64"), Some(8), "complex64 / <c8");
    assert_eq!(numpy_dtype_name(&named).unwrap(), "complex64");
}

#[test]
fn a_data_type_without_a_name_has_no_numpy_name() {
    let unnamed = other(None, Some(3), "r24");
    match numpy_dtype_name(&unnamed) {
        Err(DataTypeError::NoNumpyName(display)) => assert_eq!(display, "r24"),
        _ => panic!("expected no NumPy name"),
    }
    assert_eq!(data_type_display(&unnamed), "r24");
}

#[test]
fn display_prefers_the_zarr_v3_name() {
    assert_eq!(data_type_display(&DataType::Int32), "int32");
    assert_eq!(data_type_display(&other(Some("float8_e4m3"), Some(1), "float8_e4m3 / f8")), "float8_e4m3");
}

#[test]
fn data_type_sizes_and_names() {
    assert_eq!(DataType::Int16.fixed_size(), Some(2));
    assert_eq!(DataType::Bytes.fixed_size(), None);
    assert_eq!(DataType::UInt64.name_v3(), Some("uint64".to_string()));
    assert!(DataType::Int8.same_as(&DataType::Int8));
    assert!(!DataType::Int8.same_as(&DataType::UInt8));
    let a = DataType::TimeDelta64 { unit: TimeUnit::Hour, scale_factor: 2 };
    let b = DataType::TimeDelta64 { unit: TimeUnit::Hour, scale_factor: 3 };
    assert!(!a.same_as(&b));
}

#[test]
fn buffer_protocol_formats() {
    assert_eq!(buffer_protocol_format(&DataType::Bool).unwrap(), ('?', 1));
    assert_eq!(buffer_protocol_format(&DataType::Int64).unwrap(), ('q', 8));
    assert_eq!(buffer_protocol_format(&DataType::UInt16).unwrap(), ('H', 2));
    assert_eq!(buffer_protocol_format(&DataType::Float16).unwrap(), ('e', 2));
    assert!(matches!(
        buffer_protocol_format(&DataType::StringUtf8),
        Err(DataTypeError::NoBufferFormat(_))
    ));
}

#[test]
fn dlpack_round_trip() {
    for dt in [
        DataType::Bool,
        DataType::Int8,
        DataType::Int64,
        DataType::UInt32,
        DataType::Float16,
        DataType::BFloat16,
        DataType::Float64,
    ] {
        let t = dlpack_from_zarr(&dt).unwrap();
        assert_eq!(t.lanes, 1);
        assert_eq!(t.bits as usize, 8 * dt.fixed_size().unwrap());
        assert!(zarr_from_dlpack(t).unwrap().same_as(&dt));
    }
    let t = dlpack_from_zarr(&DataType::UInt8).unwrap();
    assert_eq!((t.code, t.bits), (DLPACK_UINT, 8));
    let t = dlpack_from_zarr(&DataType::Bool).unwrap();
    assert_eq!((t.code, t.bits), (DLPACK_BOOL, 8));
    let t = dlpack_from_zarr(&DataType::BFloat16).unwrap();
    assert_eq!((t.code, t.bits), (DLPACK_BFLOAT, 16));
}

#[test]
fn dlpack_refusals() {
    assert!(matches!(dlpack_from_zarr(&DataType::StringUtf8), Err(DataTypeError::NoDLPackType)));
    assert!(matches!(
        zarr_from_dlpack(DLPackType { code: DLPACK_INT, bits: 32, lanes: 4 }),
        Err(DataTypeError::DLPackLanes(4))
    ));
    assert!(matches!(
        zarr_from_dlpack(DLPackType { code: DLPACK_INT, bits: 12, lanes: 1 }),
        Err(DataTypeError::DLPackUnknown { code: 0, bits: 12 })
    ));
    assert!(zarr_from_dlpack(DLPackType { code: DLPACK_INT, bits: 16, lanes: 1 })
        .unwrap()
        .same_as(&DataType::Int16));
}

#[test]
fn zarrs_display_joins_the_v3_and_v2_names() {
    assert_eq!(zarrs_display(&DataType::Int32), "int32 / <i4");
    assert_eq!(zarrs_display(&DataType::Bool), "bool / |b1");
    assert_eq!(zarrs_display(&DataType::StringUtf8), "string / |O");
    assert_eq!(zarrs_display(&DataType::Bytes), "bytes / |VX");
    assert_eq!(zarrs_display(&DataType::BFloat16), "bfloat16");
    let dt = DataType::DateTime64 { unit: TimeUnit::Second, scale_factor: 1 };
    assert_eq!(zarrs_display(&dt), "numpy.datetime64");
    assert_eq!(zarrs_display(&other(None, Some(3), "|V3")), "|V3");
}
