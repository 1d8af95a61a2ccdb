# gdnative_core

The core of the Godot (GDNative) bindings, as a verified library: Verus proves the
functions in `src/` against their contracts.

- `method`: argument lists of script methods, read one by one, and the text of the
  errors reported when an argument is missing, cannot be converted or is left over.
- `diagnostics`, `semver_bridge`: the engine version check against `~3.5.1` (through the
  `semver` crate) and the registration diagnostics, with the warnings they log.
- `api`, `registration`, `refcount`: the checks made when the engine hands over its API,
  how an initialization error is reported, the steps of a class registration and of a
  script instance's constructor and destructor, what a callback hands back when the user's
  function failed or panicked, and what is done to an engine object's reference count.
- `typed_array`, `string_array`, `string`, `rid`: pool arrays, strings and resource ids,
  held by the library as plain values.
- `profiler`, `profiling`, `log`, `type_tag`: profiler signatures, call sites, type tags.
- `object`, `thread_access`, `user_data`: ownership and thread-access markers, the
  `Arc`-based user-data wrapper and the decisions of the locking wrappers.
- `laws`: properties that tie several operations together.

`app/` holds the locking user-data wrappers over `parking_lot`, the catching of panics and
the timing of profiled closures, which Verus does not check. `tests/` runs the library on concrete values.
