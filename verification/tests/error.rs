use zarrista::error::{exception_class, exception_name, exception_parent, ErrorKind, ExceptionClass};

#[test]
fn errors_map_to_exception_classes() {
    assert_eq!(exception_class(ErrorKind::Py), None);
    assert_eq!(exception_class(ErrorKind::FilesystemStoreCreate), Some(ExceptionClass::StorageError));
    assert_eq!(exception_class(ErrorKind::SerdeJson), Some(ExceptionClass::SerializationError));
    assert_eq!(exception_class(ErrorKind::TransposeOrder), Some(ExceptionClass::TransposeOrderError));
}

#[test]
fn every_class_subclasses_the_base() {
    assert_eq!(exception_parent(ExceptionClass::ZarristaError), None);
    for class in [ExceptionClass::ArrayError, ExceptionClass::NodePathError, ExceptionClass::FillValueError] {
        assert_eq!(exception_parent(class), Some(ExceptionClass::ZarristaError));
    }
    assert_eq!(exception_name(ExceptionClass::CodecError), "CodecError");
    assert_eq!(exception_name(ExceptionClass::IncompatibleDimensionalityError), "IncompatibleDimensionalityError");
}
