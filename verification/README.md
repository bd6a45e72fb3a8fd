# input_flow

Input processing for an editor front end, verified with Verus.

- `timed_event`, `timed`: per-switch timing state machines that count
  clicks, detect long presses and report exact click counts once a
  multi-click timeout has expired. Their contracts are written over a map
  from switch to phase and click count.
- `modifiers`, `modified`, `event_with_modifiers`: the pressed buttons and
  known coordinates, and the modified events that each raw input produces.
- `mapped`, `combined`: choosing the application event for an input from the
  candidates whose modifier filters are met.
- `block`, `span`, `text`: the indented-text block parser and the span parser.
- `database`: an in-memory block store keyed by random ids.
- `state`, `global_timed_state`, `struct_field`, `context`, `processor`,
  `cons_ext` and the remaining modules: the state containers and the small
  combinators that the processing pipeline is built from.

Where a module's operations relate to one another (round trips, click
sequences, selection), it states those laws as public proof functions
(`law_*`); the other modules state what they promise in the `ensures` of
their functions.

Not here: the device and global processing steps of the second input
crate (press, release, timeout, trigger and coordinate handling per device),
its switch-mapping caches and bindings, and its processor combinators for
modifiers, timing and scheduling. They are written against a crate of timing,
scheduling and pointer state that is not available, and partly against
traits and types that exist nowhere. Also not here: the processor state of
the first input crate, which is written against types that exist nowhere and
cannot be built.

`app/` holds what stays outside verification: the JSON forms of keys and raw
inputs (serde) and the error types with their messages (thiserror).
