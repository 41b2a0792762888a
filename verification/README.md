# zarrista

The verified core of zarrista, a small Python binding to the
[zarrs](https://zarrs.dev/) Zarr implementation.

`src/` is a Verus library. It holds the decisions the binding makes, each with
a contract that Verus proves:

- `selection`: how a selection written inside `[]` is read;
- `config`, `codec`: configuration values and codec parameters, codec options,
  and which setting of an option wins;
- `dtype`: data type names for NumPy, PEP 3118 format codes, DLPack types;
- `tensor`, `array_bytes`, `export`: decoded bytes as tensors, their buffer
  and DLPack layouts, variable-length elements, and what `__array__` does;
- `fill_value`, `input`, `chain`, `group`, `error`, `repr`, `text`: fill
  values, input checks, subchunk codec chains, node paths, exception classes
  and reprs.

Calls into zarrs and std that the logic needs stand behind small trusted
wrappers whose contracts state what the called code does.

`app/` is the pyo3 extension module around the library, and `tests/` runs the
library on concrete values.
