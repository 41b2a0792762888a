//! The kinds of error the binding meets, and the Python exception class that
//! each one is raised as. Every class subclasses `ZarristaError`.
use vstd::prelude::*;

verus! {

/// Where an error comes from.
#[derive(Clone, Copy, Debug, PartialEq, Eq, Structural)]
pub enum ErrorKind {
    /// No array or group exists at the requested path.
    NotFound,
    /// An error from the Python interpreter, passed through as it is.
    Py,
    /// Failed to open an array.
    ArrayCreate,
    /// An error reading from or operating on an array.
    Array,
    /// Failed to open a group.
    GroupCreate,
    /// Failed to enumerate or create a child node.
    NodeCreate,
    /// An invalid node path.
    NodePath,
    /// An error from the underlying storage backend.
    Storage,
    /// Failed to open a filesystem store.
    FilesystemStoreCreate,
    /// Failed to convert a value to or from Python.
    Pythonize,
    /// Failed to (de)serialize JSON.
    SerdeJson,
    /// A codec error.
    Codec,
    /// An invalid transpose order.
    TransposeOrder,
    /// Failed to create a codec (or other plugin) from its configuration.
    PluginCreate,
}

/// The exception classes of `zarrista.exceptions`.
#[derive(Clone, Copy, Debug, PartialEq, Eq, Structural)]
pub enum ExceptionClass {
    ZarristaError,
    NotFoundError,
    ArrayCreateError,
    ArrayError,
    GroupCreateError,
    NodeCreateError,
    NodePathError,
    StorageError,
    CodecError,
    TransposeOrderError,
    PluginCreateError,
    SerializationError,
    ChunkGridCreateError,
    IncompatibleDimensionalityError,
    FillValueError,
}

/// The class an error is raised as; `None` for an error from Python, which
/// is raised unchanged.
pub open spec fn spec_exception_class(kind: ErrorKind) -> Option<ExceptionClass> {
    match kind {
        ErrorKind::NotFound => Some(ExceptionClass::NotFoundError),
        ErrorKind::Py => None,
        ErrorKind::ArrayCreate => Some(ExceptionClass::ArrayCreateError),
        ErrorKind::Array => Some(ExceptionClass::ArrayError),
        ErrorKind::GroupCreate => Some(ExceptionClass::GroupCreateError),
        ErrorKind::NodeCreate => Some(ExceptionClass::NodeCreateError),
        ErrorKind::NodePath => Some(ExceptionClass::NodePathError),
        ErrorKind::Storage => Some(ExceptionClass::StorageError),
        ErrorKind::FilesystemStoreCreate => Some(ExceptionClass::StorageError),
        ErrorKind::Pythonize => Some(ExceptionClass::SerializationError),
        ErrorKind::SerdeJson => Some(ExceptionClass::SerializationError),
        ErrorKind::Codec => Some(ExceptionClass::CodecError),
        ErrorKind::TransposeOrder => Some(ExceptionClass::TransposeOrderError),
        ErrorKind::PluginCreate => Some(ExceptionClass::PluginCreateError),
    }
}

/// The class an error is raised as; `None` for an error from Python.
pub fn exception_class(kind: ErrorKind) -> (res: Option<ExceptionClass>)
    ensures
        res == spec_exception_class(kind),
{
    match kind {
        ErrorKind::NotFound => Some(ExceptionClass::NotFoundError),
        ErrorKind::Py => None,
        ErrorKind::ArrayCreate => Some(ExceptionClass::ArrayCreateError),
        ErrorKind::Array => Some(ExceptionClass::ArrayError),
        ErrorKind::GroupCreate => Some(ExceptionClass::GroupCreateError),
        ErrorKind::NodeCreate => Some(ExceptionClass::NodeCreateError),
        ErrorKind::NodePath => Some(ExceptionClass::NodePathError),
        ErrorKind::Storage => Some(ExceptionClass::StorageError),
        ErrorKind::FilesystemStoreCreate => Some(ExceptionClass::StorageError),
        ErrorKind::Pythonize => Some(ExceptionClass::SerializationError),
        ErrorKind::SerdeJson => Some(ExceptionClass::SerializationError),
        ErrorKind::Codec => Some(ExceptionClass::CodecError),
        ErrorKind::TransposeOrder => Some(ExceptionClass::TransposeOrderError),
        ErrorKind::PluginCreate => Some(ExceptionClass::PluginCreateError),
    }
}

/// The parent class of an exception class: `ZarristaError` for every class
/// but itself, whose parent is Python's `Exception` (`None`).
pub fn exception_parent(class: ExceptionClass) -> (res: Option<ExceptionClass>)
    ensures
        class == ExceptionClass::ZarristaError ==> res is None,
        class != ExceptionClass::ZarristaError ==> res == Some(ExceptionClass::ZarristaError),
{
    match class {
        ExceptionClass::ZarristaError => None,
        _ => Some(ExceptionClass::ZarristaError),
    }
}

/// The name of an exception class in `zarrista.exceptions`.
pub fn exception_name(class: ExceptionClass) -> (res: &'static str)
    ensures
        res@ == spec_exception_name(class),
{
    match class {
        ExceptionClass::ZarristaError => "ZarristaError",
        ExceptionClass::NotFoundError => "NotFoundError",
        ExceptionClass::ArrayCreateError => "ArrayCreateError",
        ExceptionClass::ArrayError => "ArrayError",
        ExceptionClass::GroupCreateError => "GroupCreateError",
        ExceptionClass::NodeCreateError => "NodeCreateError",
        ExceptionClass::NodePathError => "NodePathError",
        ExceptionClass::StorageError => "StorageError",
        ExceptionClass::CodecError => "CodecError",
        ExceptionClass::TransposeOrderError => "TransposeOrderError",
        ExceptionClass::PluginCreateError => "PluginCreateError",
        ExceptionClass::SerializationError => "SerializationError",
        ExceptionClass::ChunkGridCreateError => "ChunkGridCreateError",
        ExceptionClass::IncompatibleDimensionalityError => "IncompatibleDimensionalityError",
        ExceptionClass::FillValueError => "FillValueError",
    }
}

/// The name of an exception class.
pub open spec fn spec_exception_name(class: ExceptionClass) -> Seq<char> {
    match class {
        ExceptionClass::ZarristaError => "ZarristaError"@,
        ExceptionClass::NotFoundError => "NotFoundError"@,
        ExceptionClass::ArrayCreateError => "ArrayCreateError"@,
        ExceptionClass::ArrayError => "ArrayError"@,
        ExceptionClass::GroupCreateError => "GroupCreateError"@,
        ExceptionClass::NodeCreateError => "NodeCreateError"@,
        ExceptionClass::NodePathError => "NodePathError"@,
        ExceptionClass::StorageError => "StorageError"@,
        ExceptionClass::CodecError => "CodecError"@,
        ExceptionClass::TransposeOrderError => "TransposeOrderError"@,
        ExceptionClass::PluginCreateError => "PluginCreateError"@,
        ExceptionClass::SerializationError => "SerializationError"@,
        ExceptionClass::ChunkGridCreateError => "ChunkGridCreateError"@,
        ExceptionClass::IncompatibleDimensionalityError => "IncompatibleDimensionalityError"@,
        ExceptionClass::FillValueError => "FillValueError"@,
    }
}

/// Every error that is not Python's own is raised as a subclass of
/// `ZarristaError`.
pub proof fn lemma_errors_subclass_base(kind: ErrorKind)
    requires
        kind != ErrorKind::Py,
    ensures
        spec_exception_class(kind) is Some,
        spec_exception_class(kind).unwrap() != ExceptionClass::ZarristaError,
{
}

} // verus!
