# benchmarking_platform

The control plane of a benchmarking platform for trading engines, as a
verified library (`src/`) and the program that drives it (`app/`).

- `src/handlers.rs`: intake of a submission upload (media type check,
  10 MiB ceiling, submission directory) as a state machine.
- `src/builder.rs`: unpacking the archive, the Dockerfile, and the image
  build, as a state machine.
- `src/orchestrator.rs`: the container plan, the host port lookup, and the
  run of a container, as a state machine.
- `src/bot_fleet.rs`: orders, their CSV wire format, one bot's session and
  the fleet layout.
- `src/errors.rs`: failures, their HTTP status and their descriptions.
- `src/paths.rs`, `src/text.rs`: path joining and text helpers.

`app/` holds the actix-web server, the filesystem, zip, tar, Docker and TCP
work, and performs each action the library's state machines ask for.
