# gbm

Safe handles on `libgbm`, the Generic Buffer Manager, written in Verus.

- `src/` — the library: `Ptr<T>` (a shared, reference-counted handle on a
  foreign object), `AsRaw` (access to the address a handle wraps),
  `BufferObject`, and the `{:p}`-style rendering of addresses.
  Verus proves what each handle holds: the address it was made with, that
  it keeps the value given to release the object, that a clone holds the
  same address and release value as its source (stated as equal contents),
  that a buffer object keeps its device handle, and that the rendered text
  is exactly the address in hexadecimal.  That the release
  value is dropped once, with the last clone, comes from `Arc` and drop glue,
  which Verus does not model; the tests in `tests/` exercise it at run time.
- `app/` — ordinary Rust around it: the `libgbm` entry points and the adapter
  that calls a C destructor when the last handle is dropped.
- `tests/` — runtime tests of the library.
