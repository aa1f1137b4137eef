# telegram_bot

The decision logic of the ORACULUM Telegram bots (tarot, astrology and Leela
readings with AI interpretations), verified with Verus.

- `src/` — the verified library:
  - `text` — string helpers (trimming, splitting, integer reading and writing);
  - `config` — configuration from environment values, validation, administrators;
  - `models`, `states` — the records the bots store;
  - `clock` — instants and their RFC 3339 text (through `chrono`);
  - `access` — premium, free daily quota and energy: who may read, what a reading charges;
  - `chance` — random choices (through `rand`);
  - `esoterics` — the tarot deck, spheres, spreads, zodiac and Leela tables, draws;
  - `keyboards` — inline keyboards and the callback data of their buttons;
  - `routing` — which screen a message or a button press leads to;
  - `screens`, `admin`, `ai` — screen parts, the admin bots, AI request parts;
  - `prompts` — the requests sent to the AI, the tarot screens and the
    keyboards of the legal documents.
- `app/` — the bots themselves: Telegram I/O (`teloxide`), SQLite (`sqlx`),
  HTTP to the AI service (`reqwest`), environment and logging.
  Run without arguments for the user and admin bots, with `admin_bot` for the
  separate settings bot.
- `tests/` — tests of the library.

The public offer, privacy and consent texts and the system prompt live in
`app/texts.rs`; the keyboards of the legal documents and the AI requests in
`src/prompts.rs`. The gifted readings left are counted from the readings
saved for a user (`free_readings_status` in `src/screens.rs`, fed by
`Db::can_make_free_reading` in `app/db.rs`).

`Cargo.toml` names `takecell` only to hold it at 0.1.1: `teloxide` depends
on it, and its later releases need a newer compiler than the one these bots
are built with.
