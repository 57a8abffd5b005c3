# asynqmon

A web control panel for Asynq task queues. The verified library in `src/`
holds what the panel decides; `app/` is the axum server that does the I/O.

- `src/api.rs`: reply bodies (data or error, never both), HTTP statuses, and
  the replies each endpoint gives for what the service returned; the parsing
  of the task state asked for in `/api/tasks/{queue}/{state}`.
- `src/task_state.rs`: the task-state names and their parser.
- `src/service.rs`: the inspector service's state (inspector, Redis URL), its
  connection steps, the refusal of queries before a connection, and the
  context given to each failure.
- `src/panel.rs`, `src/decimal.rs`: the control panel page's state and the
  text its cards show.
- `src/text.rs`: string comparison and failure messages.
- `app/`: routes, the Asynq inspector calls, serde forms of the replies.
