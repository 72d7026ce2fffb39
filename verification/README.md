# campus_login

Automatic login to the campus network portal, with its decision logic
verified by Verus.

The daemon checks at a fixed interval whether probe pages answer with
their expected text; when the network is restricted or lost it drives a
headless Chrome through the portal's login page. A command line manager
downloads Chrome and ChromeDriver, writes the default configuration and
starts, stops and reports the daemon.

## Layout

- `src/` — the verified library
  - `text.rs`: characters, white space, trimming, lines, substring search,
    decimal numbers and joining, each with an exact specification
  - `campus_core/`: configuration model and defaults, errors, platform
    names, the lock-file judgement and the connectivity decision
    (`detect.rs`, a step function plus a whole-run function, with the law
    that both agree)
  - `login_common/`: the status type and the containment-based probe
  - `auto_login/`: configuration checks (`startup.rs`, `settings.rs`), the
    login page flows as stage machines (`login.rs`, `legacy_login.rs`),
    driver command lines, the daemon's own checks and its task decisions
  - `manager/`: download addresses and arguments (`cli.rs`), the window's
    texts (`gui.rs`), the service list parser (`services.rs`) and the probe
    table editing commands (`connect_edit.rs`)
- `app/` — the programs: `campus_login daemon` runs the daemon, any other
  command line is the manager. It performs all I/O (HTTP, WebDriver,
  files, locks, sockets, logging) and asks the library what to do.
- `tests/` — tests of the library on concrete values.
