# rsvelte_profile

Phase timers and counters for a compiler pipeline, with their behaviour stated in contracts and
proved by Verus.

- `src/profile/` holds the timer switch, the timers, the recorders, the guards and the breakdowns
  they report, and in `laws.rs` what holds of them as a whole.
- `src/duration.rs` holds the span of time that the recorders add up.
- `src/measure_ast_state.rs` counts how often a parsed program is reused.
- `src/digest.rs` digests what a compiler produced.
- `src/corpus.rs` decides which files a profiler compiles and reads its arguments.
- `src/cost.rs` estimates the cost of a timer from samples.
- `app/` keeps the recorders of each thread and holds the programs that drive a compiler.

Recorders take the switch and the thread's recorders as arguments; `app/profile.rs` keeps both and
offers the same functions without them.
