# tiket_war_bot

The decision and text logic of a ticket-purchase bot for tiket.com, verified
with Verus, and the program around it.

- `src/` — the verified library:
  - `config` — the settings, the validation rules, and the autofill script;
  - `autofill` — the form scripts checkout runs and how their answers are read;
  - `browser` — Chrome's launch flags and the click script;
  - `monitor` — the war countdown (through `chrono`) and the ticket watch;
  - `checkout` — the order of the checkout steps, their pauses, the CAPTCHA wait;
  - `notification` — Telegram requests (JSON through `serde_json`) and retries;
  - `error`, `text` — error values and character-level helpers.
- `app/` — the command-line program: settings file, Chrome over the DevTools
  protocol, HTTP, clock and sleeps, printing, and the speed benchmark.
- `tests/` — tests of the library.
