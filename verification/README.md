# harness_desktop

The decisions of a desktop shell that starts a bundled local web service, shows
its page, and hosts one native browser panel beside it. The library in `src/` is
written in Verus: every function states what it returns, and the laws of the
shell are proved. `app/` is the shell itself, in ordinary Rust: it owns the
windows, the webview, the sockets, the files and the process, performs what the
library decides, and tells it how that went.

| Module           | What it decides                                               |
|------------------|---------------------------------------------------------------|
| `control_server` | routes, answers and the descriptor of the control API         |
| `native_browser` | every move of an operation on the panel                       |
| `panel_laws`     | what holds of every operation, however its actions go         |
| `panel_bridge`   | which page messages are relayed, where to, with which bytes   |
| `wire`           | what the receiver of a relayed message reads                  |
| `window_guard`   | which Escape presses are consumed                             |
| `harness`        | where the service lies, how it is started, what it announces  |
| `process`        | how the service is stopped                                    |
| `startup`        | when the window goes to the service, and what is due at exit  |
| `paths`, `text`  | paths as names under a base, and text primitives              |
| `web_url`, `base64_text`, `json_value` | what is taken from `url`, `base64` and `serde_json` |

Coordinates are doubles in the messages of the control API; the library holds
their bits, and only ever asks whether a size is below one.
