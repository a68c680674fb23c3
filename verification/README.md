# umpv

A single-instance mpv launcher for Windows. It opens a file in the mpv that
already runs in the user's session, through mpv's named-pipe IPC, or starts a
new mpv when none runs; `--register` and `--unregister` point the extensions
that mpv registered at the launcher, or back at mpv, in the per-user registry.

- `src/` is the verified library: the command line (`command_line`), the
  text sent to mpv and the pipe's name (`pipe`), the lock and mpv start-up
  decisions (`lock`, `mpv`), the file names refused before mpv is asked
  (`launcher`), and two flows that say which Windows call comes next: opening
  a file (`session`) and changing the registry (`registry`).
- `app/` is the Windows program around it: it reads the arguments, makes the
  calls that the flows ask for, and shows the messages.
- `tests/` runs the library on concrete inputs.
