# synctr

Named rclone profiles, gitignore-style ignore rules, scheduled and watched
syncs, and a terminal view. rclone runs as a subprocess.

- `src/` is the library, written in Verus and verified: profiles and their
  edits, the ignore rules and the rclone filter file, rclone discovery, the
  sync argv, systemd and launchd unit files, the calendar behind the time
  stamps, status and progress text, the `doctor` report, and the decisions of
  `watch` and of the terminal view. Each public function states its result in
  its contract; laws that span functions are public proof functions.
- `app/` is the `synctr` command around it: argument parsing, files, locks,
  child processes, the file-system watcher and the terminal.
- `tests/` runs the library on concrete values.
