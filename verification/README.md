# yaay

Yet another async runtime for Rust: a multi-threaded work-stealing executor
with mio event loops, whose scheduling logic is verified with Verus.

- `src/` is the verified library. Every shared status word of the runtime
  has a state machine here whose steps carry exact contracts: the packed
  epoch counter that lets idle workers park (`epoch`), a task's scheduling
  status and reference count (`task_status`), an I/O dispatcher's readiness
  status (`dispatcher`). Around them: the task queues (`task_list`), the
  worker's main loop as a step function (`worker_loop`), work stealing,
  worker registration and batch hand-off (`worker`), the event loop's table
  of registered sources over `slab` (`dispatcher_table`), socket options
  over mio (`net`), the seed generator (`rng`), and a model of the parking
  protocol in which the absence of deadlock is proved (`protocol`), with
  lemmas that map each step of the worker loop and of the epoch onto a
  step of that model (`refinement`).
- `app/` is the runtime around it: threads, atomics (each change of a status
  word applies one step of its state machine in a compare-and-swap),
  parking through `parking_lot_core`, tasks as type-erased futures, the mio
  event loops and the async TCP API.
- `tests/` runs the library on concrete values.
