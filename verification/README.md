# lib: a small verified object runtime

- `memory`: pages, stacks and a heap of pages, with the memory roots of a
  runtime (`init`, `root_page`, `get_page`, `alloc_page`, `dealloc_page`).
- `object`: objects as rows of word-sized slots (`get_usize`, `set_usize`, ...),
  the call table, object creation (`Object::new`, `from`, `wrap`), one-step
  calls (`invoke`, `Object::call`) and calls run to their end within a
  number of steps (`run`).
- `runtime`: the state every operation works on: the objects (named by
  handle), the call table, the prototype registry, kept lists, memory roots.
- `init`: building prototypes and bringing a runtime up.
- `types`: lists, strings and string-keyed tables of objects.
- `typeshit`: a store of boxed values found again by index.
- `system`: files, devices, storage and the console's log lines, rendered
  as the console writes them.
- `text`: appending text and decimal numbers to strings.

`app/main.rs` is the program: it prints, and runs the library.
