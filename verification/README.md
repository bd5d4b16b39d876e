# burberry

An event-driven engine: collectors produce events, strategies turn events
into actions, and executors carry the actions out.

- `src/` is the verified library. It holds the engine's configuration, the
  plan by which a run starts its tasks (with laws on the order of the steps
  and on when a run stops), the decisions of the strategy and collector event
  loops (with laws on which events are processed and forwarded), the
  submitters and collectors that transform what passes through them, and the
  routes, which hold the executors that `app/` dispatches to.
- `app/` is the asynchronous runtime around it: the `Collector`, `Strategy`,
  `Executor` and `Dispatch` traits, the tasks that a run spawns on tokio, the
  printing submitter, and the `action!`, `dispatch!`, `map_collector!` and
  `submit_action!` macros.
- `tests/` runs the library on concrete values.
