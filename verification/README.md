# trance

The decision logic of the `trance` Wayland screensaver daemon and its command-line
client, written in Verus and proved against its contracts.

## Layout

- `src/` — the verified library. Each module states its data as mathematical views
  (`Seq`, `Map`, spec functions) and every public function states what it returns:
  - idle policy and presentation planning (`idle_decision`, `idle_logic`, `idle_loop`);
  - settings: defaults, the settings file, commands and their validation (`config`,
    `persistence`, `commands`, `scale`, `status`);
  - the saver allowlist and the random pick (`saver`);
  - inhibitors and the D-Bus monitor lines that announce them (`inhibit`, `monitor`,
    `logind`);
  - the control service and its caller checks (`service`, `auth`);
  - output layout, spanning grids and topology overrides (`layout`, `topology`);
  - the sessions a presentation opens, the runner handshake and the runner's command
    loop (`runner_protocol`);
  - the command line: dispatch, `config`, the interactive panel, `doctor`,
    `self-update`, `bug-report` (`cli`, `cli_config`, `interactive`, `doctor`,
    `self_update`, `update_report`, `bug_report`);
  - daemon start-up, paths and the fail-safe locker (`startup`, `paths`,
    `daemon_args`, `failsafe`);
  - string functions with their specifications (`text`).
  Public `law_*` proof functions state properties that hold across calls.
- `app/` — the programs around the library: process and file I/O, the D-Bus
  connection, the terminal, floating-point parsing and printing.
- `tests/` — tests of the library on concrete values.

## Settings

The daemon reads its settings from `~/.config/local76/theme.yaml` (or under
`XDG_CONFIG_HOME`) and starts from these defaults: idle timeout 10 minutes, saver
`beams`, idle presentation enabled, FPS overlay off, no render-scale override. When
set, `TRANCE_IDLE_TIMEOUT_MINS`, `TRANCE_ACTIVE_SAVER` and `TRANCE_SHOW_FPS` override
the loaded timeout, saver and FPS overlay; a value the settings file would refuse is
ignored. Logging follows `RUST_LOG`.

## Not included

- The fullscreen presentation itself: the Wayland surfaces, the out-of-process plugin
  runner and its shared-memory frames, and frame pacing. The daemon decides when and
  which saver to show and starts `trance-daemon run-plugin <saver>`; this executable
  has no runner for that mode and reports so, so no saver is drawn.
- Three `trance doctor` checks: that the settings file parses, that the fonts are
  installed, and that the package is installed. The doctor runs the Wayland, D-Bus,
  service and process checks.
