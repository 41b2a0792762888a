//! Reading a selection (the argument to `__getitem__` and
//! `retrieve_array_subset`) into a shape-independent representation.
//!
//! This only models *what was written* inside the brackets. Values are taken
//! verbatim: negative indices and slice bounds are not normalized against any
//! axis length.
use vstd::prelude::*;

verus! {

/// What the binding reads of a Python object inside the brackets. Reading an
/// object as an integer may fail; such failures are carried as `E`.
pub enum PyObject<E> {
    /// `None` (also `np.newaxis`).
    NoneObject,
    /// `True` or `False`. `bool` is a subclass of `int`, so it is told apart
    /// before any integer is read.
    Bool,
    /// `...`.
    Ellipsis,
    /// A `slice`, with each of its `start`, `stop` and `step` read as an
    /// optional `i64`.
    Slice { start: Result<Option<i64>, E>, stop: Result<Option<i64>, E>, step: Result<Option<i64>, E> },
    /// A tuple, with its items, and the outcome of reading the tuple itself
    /// as an `i64` index.
    Tuple { items: Vec<PyObject<E>>, as_index: Result<i64, E> },
    /// Any other object, with the outcome of reading it as an `i64` index.
    Other { as_index: Result<i64, E> },
}

/// A selector for a single axis, as written inside `[]`.
#[derive(Clone, Copy, Debug, PartialEq, Eq, Structural)]
pub enum AxisSelector {
    /// An integer index, e.g. `5` or `-1`.
    Index(i64),
    /// A slice, e.g. `0:10`, `::`, or `:5`.
    Slice { start: Option<i64>, stop: Option<i64>, step: Option<i64> },
    /// `...` (Ellipsis).
    Ellipsis,
}

/// A full selection: either a single axis selector (`arr[5]`) or a tuple of
/// them (`arr[5, 0:10, ...]`).
#[derive(Clone, Debug, PartialEq, Eq)]
pub enum SelectionInput {
    Single(AxisSelector),
    Tuple(Vec<AxisSelector>),
}

/// Why a selection cannot be read.
#[derive(Clone, Debug, PartialEq, Eq)]
pub enum SelectionError<E> {
    /// `None` / `np.newaxis` is not supported (a `NotImplementedError`).
    NewAxis,
    /// Boolean indexing is not supported (a `NotImplementedError`).
    BoolIndex,
    /// A value could not be read as an integer.
    Extract(E),
}

impl<E> SelectionError<E> {
    /// The message of an unsupported selection, or `None` for a failed read
    /// (which carries its own error).
    pub fn message(&self) -> (res: Option<&'static str>)
        ensures
            self is NewAxis ==> (res matches Some(s) && s@
                == "None / np.newaxis indexing is not supported"@),
            self is BoolIndex ==> (res matches Some(s) && s@
                == "boolean indexing is not supported"@),
            self is Extract ==> res is None,
    {
        match self {
            SelectionError::NewAxis => Some("None / np.newaxis indexing is not supported"),
            SelectionError::BoolIndex => Some("boolean indexing is not supported"),
            SelectionError::Extract(_) => None,
        }
    }
}

/// How one object inside the brackets is read as an axis selector.
pub open spec fn spec_axis_selector<E>(obj: PyObject<E>) -> Result<AxisSelector, SelectionError<E>> {
    match obj {
        PyObject::NoneObject => Err(SelectionError::NewAxis),
        PyObject::Bool => Err(SelectionError::BoolIndex),
        PyObject::Ellipsis => Ok(AxisSelector::Ellipsis),
        PyObject::Slice { start, stop, step } => match (start, stop, step) {
            (Err(e), _, _) => Err(SelectionError::Extract(e)),
            (Ok(_), Err(e), _) => Err(SelectionError::Extract(e)),
            (Ok(_), Ok(_), Err(e)) => Err(SelectionError::Extract(e)),
            (Ok(start), Ok(stop), Ok(step)) => Ok(AxisSelector::Slice { start, stop, step }),
        },
        PyObject::Tuple { as_index, .. } => match as_index {
            Ok(i) => Ok(AxisSelector::Index(i)),
            Err(e) => Err(SelectionError::Extract(e)),
        },
        PyObject::Other { as_index } => match as_index {
            Ok(i) => Ok(AxisSelector::Index(i)),
            Err(e) => Err(SelectionError::Extract(e)),
        },
    }
}

/// How the items of a tuple are read, left to right: the first failure wins.
pub open spec fn spec_axis_selectors<E>(items: Seq<PyObject<E>>) -> Result<Seq<AxisSelector>, SelectionError<E>>
    decreases items.len(),
{
    if items.len() == 0 {
        Ok(Seq::empty())
    } else {
        match spec_axis_selectors(items.drop_last()) {
            Err(e) => Err(e),
            Ok(s) => match spec_axis_selector(items.last()) {
                Err(e) => Err(e),
                Ok(a) => Ok(s.push(a)),
            },
        }
    }
}

/// The selection read from a tuple's items.
pub open spec fn spec_tuple_selection<E>(items: Seq<PyObject<E>>) -> Result<Seq<AxisSelector>, SelectionError<E>> {
    spec_axis_selectors(items)
}

/// Read one object inside the brackets as an axis selector.
pub fn extract_axis_selector<E>(obj: PyObject<E>) -> (res: Result<AxisSelector, SelectionError<E>>)
    ensures
        res == spec_axis_selector(obj),
{
    match obj {
        PyObject::NoneObject => Err(SelectionError::NewAxis),
        PyObject::Bool => Err(SelectionError::BoolIndex),
        PyObject::Ellipsis => Ok(AxisSelector::Ellipsis),
        PyObject::Slice { start, stop, step } => {
            let start = match start {
                Ok(v) => v,
                Err(e) => {
                    return Err(SelectionError::Extract(e));
                },
            };
            let stop = match stop {
                Ok(v) => v,
                Err(e) => {
                    return Err(SelectionError::Extract(e));
                },
            };
            let step = match step {
                Ok(v) => v,
                Err(e) => {
                    return Err(SelectionError::Extract(e));
                },
            };
            Ok(AxisSelector::Slice { start, stop, step })
        },
        PyObject::Tuple { as_index, .. } => match as_index {
            Ok(i) => Ok(AxisSelector::Index(i)),
            Err(e) => Err(SelectionError::Extract(e)),
        },
        PyObject::Other { as_index } => match as_index {
            Ok(i) => Ok(AxisSelector::Index(i)),
            Err(e) => Err(SelectionError::Extract(e)),
        },
    }
}

/// Read a whole selection: a tuple gives one axis selector per item (a
/// nested tuple is read as an index, which fails); anything else gives a
/// single axis selector.
pub fn extract_selection<E>(obj: PyObject<E>) -> (res: Result<SelectionInput, SelectionError<E>>)
    ensures
        obj is Tuple ==> (res is Ok <==> spec_tuple_selection(obj->Tuple_items@) is Ok),
        obj is Tuple && res is Ok ==> (res->Ok_0 matches SelectionInput::Tuple(axes) && axes@
            == spec_tuple_selection(obj->Tuple_items@)->Ok_0),
        obj is Tuple && res is Err ==> res->Err_0 == spec_tuple_selection(obj->Tuple_items@)->Err_0,
        !(obj is Tuple) ==> (res is Ok <==> spec_axis_selector(obj) is Ok),
        !(obj is Tuple) && res is Ok ==> res->Ok_0 == SelectionInput::Single(
            spec_axis_selector(obj)->Ok_0,
        ),
        !(obj is Tuple) && res is Err ==> res->Err_0 == spec_axis_selector(obj)->Err_0,
{
    let ghost given = obj;
    match obj {
        PyObject::Tuple { items, as_index } => {
            let ghost all = items@;
            assert(all.len() == items.len());
            let mut rest = items;
            let mut axes: Vec<AxisSelector> = Vec::new();
            let mut k: usize = 0;
            assert(all.take(0) =~= Seq::<PyObject<E>>::empty());
            while rest.len() > 0
                invariant
                    k + rest@.len() == all.len(),
                    all.len() <= usize::MAX,
                    given is Tuple,
                    obj == given,
                    given->Tuple_items@ == all,
                    rest@ == all.skip(k as int),
                    spec_axis_selectors(all.take(k as int)) == Ok::<Seq<AxisSelector>, SelectionError<E>>(axes@),
                decreases rest.len(),
            {
                let item = rest.remove(0);
                proof {
                    assert(item == all[k as int]);
                    assert(all.take(k + 1).drop_last() =~= all.take(k as int));
                    assert(all.take(k + 1).last() == all[k as int]);
                    assert(rest@ =~= all.skip(k + 1));
                }
                match extract_axis_selector(item) {
                    Ok(a) => {
                        axes.push(a);
                    },
                    Err(e) => {
                        proof {
                            lemma_first_failure_wins(all, k as int);
                            assert(spec_tuple_selection(all) == Err::<Seq<AxisSelector>, SelectionError<E>>(e));
                        }
                        return Err(e);
                    },
                }
                k = k + 1;
            }
            assert(all.take(k as int) =~= all);
            Ok(SelectionInput::Tuple(axes))
        },
        other => match extract_axis_selector(other) {
            Ok(a) => Ok(SelectionInput::Single(a)),
            Err(e) => Err(e),
        },
    }
}

/// A failure at item `k`, after all earlier items were read, is the failure
/// of the whole tuple.
pub proof fn lemma_first_failure_wins<E>(items: Seq<PyObject<E>>, k: int)
    requires
        0 <= k < items.len(),
        spec_axis_selectors(items.take(k)) is Ok,
        spec_axis_selector(items[k]) is Err,
    ensures
        spec_axis_selectors(items) == Err::<Seq<AxisSelector>, SelectionError<E>>(
            spec_axis_selector(items[k])->Err_0,
        ),
{
    assert(items.take(items.len() as int) =~= items);
    lemma_failure_persists(items, items.len() as int, k);
}

/// Once a prefix of the items fails, every longer prefix fails the same way.
proof fn lemma_failure_persists<E>(items: Seq<PyObject<E>>, n: int, k: int)
    requires
        0 <= k < n <= items.len(),
        spec_axis_selectors(items.take(k)) is Ok,
        spec_axis_selector(items[k]) is Err,
    ensures
        spec_axis_selectors(items.take(n)) == Err::<Seq<AxisSelector>, SelectionError<E>>(
            spec_axis_selector(items[k])->Err_0,
        ),
    decreases n - k,
{
    assert(items.take(n).drop_last() =~= items.take(n - 1));
    if n == k + 1 {
        assert(items.take(n).last() == items[k]);
    } else {
        lemma_failure_persists(items, n - 1, k);
    }
}

} // verus!
