# petal_sync

The decision logic of a two-way synchroniser between a local folder and a
cloud drive, verified with Verus.

- `src/` is the verified library. It holds the three-way planner and the
  filters applied to a plan in their fixed order, rename and move detection, the settlement of
  executed actions into baselines and the cloud checkpoint, the order in
  which a cycle's actions run, baseline reconciliation and the review of
  failed baselines, the change feed
  replay and the full cloud scan, checkpoint trust, conflict naming and the
  step machines of the executor's actions (conflicts, backups, local and
  cloud deletions, moves, folders, placeholders), durable transfer
  decisions, on-demand download (hydration) decisions, retry classification
  and back-off, cycle coordination, the step machines of the coordinated
  cycle and of the sync cycle inside it, and the engine's background loops.
  `src/properties.rs` and the `pub proof fn`s of the other modules state the
  laws the library keeps.
- `app/` is the host side: disk and extended attributes, checkpoint
  persistence, and drivers that run the library's step machines against
  host traits for the drive, the database and the mount.
- `tests/` runs the library on concrete cases.
