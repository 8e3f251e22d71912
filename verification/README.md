# GSB Connect

Logs in to the GSB WiFi captive portal with the user's own credentials and can
connect Cloudflare WARP afterwards.

- `src/` is the verified library: the INI reader (`ini`), the config file
  layout with its load and rewrite rules (`config`), base64 and credential
  protection (`base64`, `secret_store`), the login policy as a state machine
  with its backoff schedule, form encoding and WARP decisions (`login`),
  localization (`i18n`), the alert banner (`alert`), the window's state
  and the decisions behind its controls apart from drawing (`gui`), the
  auto-start command (`autostart`) and text helpers (`text`).
- `app/` is the command-line shell: file and path handling, HTTP requests,
  `warp-cli`, and the Windows key store and registry. It prints the events
  that a desktop front end would receive (log lines, login and WARP results,
  the loaded configuration) as JSON lines; `serde` and `serde_json` are there
  for that alone, and the library does not use them.
- `tests/` exercises the library on concrete values.
