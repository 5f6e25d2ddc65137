# signet

The decision logic of the Signet device companion, verified with Verus.

The app runs the Signet daemon and two llama.cpp model servers on a phone, and talks to the
daemon's memory API. This crate decides, and proves, everything that does not need the
outside world:

- `numeric`, `text`, `paths`: reading and writing integers the way Rust's parser and
  `Display` do, trimming, lower-case prefixes, `gguf` file names, and path joining.
- `commands`: the daemon's port and URL, the memory API's requests (URL, JSON body,
  timeout) and what each reply comes to.
- `process`: pid files (what is written reads back), signal targets, the shutdown sequence
  (terminate, check, wait, kill, release) and health checks.
- `android`: the data directory, the directories to create, the daemon binary to use, the
  model servers to start and their command lines, the daemon's environment, and whether
  the daemon runs.
- `startup`: the daemon's startup as a state machine the app drives step by step.
- `desktop`: the Linux and Windows managers.

`app/` is the Tauri shell: it performs the file system, process, signal, socket and HTTP
work the library asks for and hands back what happened.
