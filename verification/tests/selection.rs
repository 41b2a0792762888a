use zarrista::selection::{
    extract_axis_selector, extract_selection, AxisSelector, PyObject, SelectionError,
    SelectionInput,
};

fn index(value: i64) -> PyObject<String> {
    PyObject::Other { as_index: Ok(value) }
}

fn slice(start: Option<i64>, stop: Option<i64>, step: Option<i64>) -> PyObject<String> {
    PyObject::Slice { start: Ok(start), stop: Ok(stop), step: Ok(step) }
}

fn not_an_index(kind: &str) -> Result<i64, String> {
    Err(format!("'{kind}' object cannot be interpreted as an integer"))
}

#[test]
fn extracts_integer_index() {
    let sel = extract_selection(index(5)).unwrap();
    assert_eq!(sel, SelectionInput::Single(AxisSelector::Index(5)));
}

#[test]
fn extracts_negative_integer_index() {
    let sel = extract_selection(index(-1)).unwrap();
    assert_eq!(sel, SelectionInput::Single(AxisSelector::Index(-1)));
}

#[test]
fn extracts_slice_with_start_stop() {
    let sel = extract_selection(slice(Some(0), Some(10), None)).unwrap();
    assert_eq!(
        sel,
        SelectionInput::Single(AxisSelector::Slice { start: Some(0), stop: Some(10), step: None })
    );
}

#[test]
fn extracts_full_slice() {
    let sel = extract_selection(slice(None, None, None)).unwrap();
    assert_eq!(
        sel,
        SelectionInput::Single(AxisSelector::Slice { start: None, stop: None, step: None })
    );
}

#[test]
fn extracts_strided_slice() {
    let sel = extract_selection(slice(Some(1), Some(20), Some(2))).unwrap();
    assert_eq!(
        sel,
        SelectionInput::Single(AxisSelector::Slice {
            start: Some(1),
            stop: Some(20),
            step: Some(2),
        })
    );
}

#[test]
fn extracts_ellipsis() {
    let sel = extract_selection(PyObject::<String>::Ellipsis).unwrap();
    assert_eq!(sel, SelectionInput::Single(AxisSelector::Ellipsis));
}

#[test]
fn extracts_tuple_of_mixed() {
    let obj = PyObject::Tuple {
        items: vec![index(5), slice(Some(0), Some(4), None), PyObject::Ellipsis],
        as_index: not_an_index("tuple"),
    };
    let sel = extract_selection(obj).unwrap();
    assert_eq!(
        sel,
        SelectionInput::Tuple(vec![
            AxisSelector::Index(5),
            AxisSelector::Slice { start: Some(0), stop: Some(4), step: None },
            AxisSelector::Ellipsis,
        ])
    );
}

#[test]
fn empty_tuple_is_empty_selection() {
    let obj = PyObject::<String>::Tuple { items: vec![], as_index: not_an_index("tuple") };
    let sel = extract_selection(obj).unwrap();
    assert_eq!(sel, SelectionInput::Tuple(vec![]));
}

#[test]
fn rejects_nested_tuple() {
    let inner = PyObject::Tuple { items: vec![index(0), index(1)], as_index: not_an_index("tuple") };
    let obj = PyObject::Tuple { items: vec![index(5), inner], as_index: not_an_index("tuple") };
    let result = extract_selection(obj);
    assert!(result.is_err());
}

#[test]
fn rejects_none_as_newaxis() {
    let err = extract_selection(PyObject::<String>::NoneObject).unwrap_err();
    assert_eq!(err, SelectionError::NewAxis);
    assert_eq!(err.message(), Some("None / np.newaxis indexing is not supported"));
}

#[test]
fn rejects_bool_index() {
    // `bool` is an `int` subclass; it must not be read as an integer index.
    let err = extract_selection(PyObject::<String>::Bool).unwrap_err();
    assert_eq!(err, SelectionError::BoolIndex);
    assert_eq!(err.message(), Some("boolean indexing is not supported"));
}

#[test]
fn rejects_list_index() {
    let obj = PyObject::Other { as_index: not_an_index("list") };
    let result = extract_selection(obj);
    assert!(result.is_err());
}

#[test]
fn first_failing_item_of_a_tuple_is_reported() {
    let obj = PyObject::Tuple {
        items: vec![
            index(1),
            PyObject::Other { as_index: Err("first".to_string()) },
            PyObject::NoneObject,
            PyObject::Other { as_index: Err("second".to_string()) },
        ],
        as_index: not_an_index("tuple"),
    };
    let err = extract_selection(obj).unwrap_err();
    assert_eq!(err, SelectionError::Extract("first".to_string()));
    assert_eq!(err.message(), None);
}

#[test]
fn slice_bound_that_is_not_an_integer_fails() {
    let obj = PyObject::Slice {
        start: Ok(Some(0)),
        stop: Err("stop".to_string()),
        step: Err("step".to_string()),
    };
    let err = extract_axis_selector(obj).unwrap_err();
    assert_eq!(err, SelectionError::Extract("stop".to_string()));
}

#[test]
fn tuple_inside_a_tuple_is_read_as_an_index() {
    let inner = PyObject::<String>::Tuple { items: vec![], as_index: Ok(7) };
    assert_eq!(extract_axis_selector(inner), Ok(AxisSelector::Index(7)));
}
