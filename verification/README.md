# course-system-tester

A command-line tester for a course-selection system built of a web server and
clusters of store servers. It builds the system, starts the servers, brings up
virtual network interfaces for the store servers, runs `ab-go` benchmarks while
taking interfaces down and up, and reports what the benchmarks printed.

Layout:

- `src/` — the library, verified with Verus.
  - `json.rs`: the configuration document and its lookups.
  - `config.rs`: reading the tester's settings (web server, stores).
  - `check.rs`, `project.rs`, `vnic.rs`, `server.rs`, `bench.rs`: the shell
    commands the tester runs and its verdicts on how they ended.
  - `protocol.rs`: a session's protocol over mathematical models: for each
    stage and what happened, the next stage and the next action.
  - `session.rs`: the executable session, proved to follow the protocol.
  - `flap.rs`: the round that takes two interfaces down and up again while
    the benchmarks run, as a step function from stage and event to action.
  - `laws.rs`: properties of the protocol (interfaces come up before store
    servers start and are all down again after a successful run, and more).
  - `report.rs`, `text.rs`, `process.rs`: the report, decimal text, and
    process outcomes.
- `app/` — the program: argument parsing, reading the configuration file,
  and carrying out the actions a session and the flapping ask for
  (processes, sleeps, the thread the flapping runs on, logging).
- `tests/` — tests of the library on concrete values.
