# ext_php_rs

A verified model of the data structures and builders that PHP extensions
written in Rust exchange with the Zend engine: zvals, hashtables, strings,
objects and class entries, argument parsing, function, class and module
entries, exceptions, binary packing, and the property handlers of classes
bound to Rust types.

The engine's storage is held in plain Rust values, and every operation is
specified over a mathematical model (`Seq`, `Map`-like entry lists, integers)
and proved with Verus.

Layout:

- `src/` — the verified library, one module per engine concept
  (`zval`, `array`, `pairs`, `object`, `class`, `class_builder`, `function`,
  `module`, `exceptions`, `globals`, `handlers`, `props`, `pack`, `binary`,
  ...).
  Public `law_*` proof functions state properties relating several
  operations (a read gives back what was written, unpacking inverts packing,
  a vector becomes a list, building a module lists its functions in order,
  ...).
- `tests/` — executable tests of the library.
- `app/` — floating-point operations on zvals, which stay outside the
  verified library.
