# clos-monitor

Monitors the ClosLamartine Docker stacks (prod and staging) and the server
they run on, sends Telegram alerts when a check starts or stops failing, and
answers Telegram webhook commands.

- `src/` is the verified library: configuration from the environment, the
  verdicts drawn from container, HTTP and server probes, the alert state
  machine, the webhook's checks and command routing, the self-check report,
  and every message text. Each public function states its result in
  `ensures` over the spec functions beside it; the `lemma_*` proof functions
  state the properties that span several calls.
- `tests/` runs the library on concrete values.
- `app/` is the program: command line, Docker, HTTP, systemd, file and
  process I/O, and the HTTP server. It gathers plain values, hands them to
  the library, and performs what the library decides.
