# job_receipts

A verified library for the durable job receipts of a command daemon and the
`command_status` answers rebuilt from them after a restart.

- `src/` is the library, verified with Verus: the receipt write discipline
  (a real terminal transition always lands; an abandonment lands only where no
  receipt exists or over another abandonment), the once-only restart stamp,
  reading a stored row back, rebuilding a terminal status from a receipt and
  its evidence (abandonment reads as cancelled with no exit code, never as a
  failure), the order in which lanes answer a status request (and, when none
  does, the lost-job test over durable start records, kept apart from an
  unknown job), the request
  caps, and the stop and output-tail replies. The laws are proof functions
  named `law_*`.
- `app/` holds the I/O around it: the SQLite event store (which moves rows in
  and out of the `job_receipts` table as the library decides) and drivers that
  ask the daemon's lanes and rings.
- `tests/` exercises the library on concrete values.
