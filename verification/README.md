# pc_part_grader

The verified core of a PC benchmark grader, written in Verus.

- `src/` — the library. Every function is proved against its contract,
  except two trusted wrappers whose contracts are believed, not proved:
  `sha256_digest` (calls `sha2::Sha256::digest`; its result is only named)
  and `hex_encode` (calls `hex::encode`):
  - `control`: the run control (one benchmark at a time, cancellation);
  - `models`: benchmark profiles and the hardware / progress / settings records;
  - `benchmarks`: the workload catalogue, the suite plan of a run, the
    warm-up/measure schedule of a workload, output fingerprints, and the
    integer parts of the workloads (sizes, generated inputs, access patterns);
  - `community`: when results may be shared;
  - `history`: report file names, newest-first listing, the report to compare with;
  - `hardware`, `scoring`, `text`: interpretation of detected hardware, suite
    reliability, string helpers.
- `app/` — the command-line program: I/O, timing, GPU work, and the
  floating-point score arithmetic.
- `tests/` — tests of the library.
