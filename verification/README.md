# codex-plus-core

The launcher of the Codex desktop app: it opens the app with its debugging port, brings a bridge
into the app's page, and answers the page over HTTP on the loopback.

- `src/` is the library, verified with Verus. It computes and decides: command lines and their
  quoting, the course of a launch and of undoing one, the requests and replies of the helper, what
  is made of an upstream's reply, when the app counts as gone, how long the guard of the
  computer-use configuration stays up, and the commands that are run on other hosts.
- `app/` does the rest: processes, sockets, timers and platform calls. It performs what the library
  asks for and hands back what came of it. What it needs from the rest of the workspace is in
  `app/services.rs`.
- `tests/` runs the library.

| Module | What it states |
| --- | --- |
| `text`, `paths`, `json` | texts, file names and JSON values, as the other modules speak of them |
| `settings`, `relay`, `status` | what a launch reads of the settings, and what it records |
| `quoting`, `launch`, `plan` | command lines, and the way in which the app is launched |
| `session`, `session_laws` | the course of a launch, and what holds of every launch |
| `bridge`, `guard`, `exit` | trying again, looking after the configuration, the end of the app |
| `events` | the events under which steps are logged |
| `http`, `framing`, `helper`, `overlay`, `proxy` | requests, heads, routes, answers, proxied services |
| `remote` | git in a project on another host |
