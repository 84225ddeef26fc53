# naui_core

The value types that every native backend of naui shares (menus, toolbars,
lists, trees, tables, sidebars, dialogs, dates, colours, text styles) and the
rules the backends apply to them alike, written in Verus: each public function
carries a contract, and the properties the library promises are proved.

- `src/` is the verified library. Besides the value types it holds the
  bookkeeping of the runtime that carries values and futures onto the UI
  thread: `channel`, `task` and `registry` decide each step (whether to ask
  the UI thread for a pump, whether a task is polled, when a channel closes).
- `app/` is ordinary Rust around it: the runtime that performs those steps
  (threads, locks, wakers, the UI thread's register), and the values measured
  in floating-point numbers (drawing geometry, number inputs, toasts, split
  positions, sizes).
- `tests/` runs the library on concrete values.
