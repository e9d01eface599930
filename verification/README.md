# emtt

Forwards Meshtastic messages received over syslog to Telegram and to webhooks.

- `src/` is the verified library: resolution of escapes in the message
  template (`template`), escaping of template values for Telegram's HTML and
  MarkdownV2 parse modes (`escape`), the start-up configuration and the
  decisions taken from it (`config`), and properties that span these
  functions (`laws`).
- `app/` is the command-line program around it: argument parsing, logging,
  template rendering with minijinja, and the Telegram, webhook and syslog I/O.
