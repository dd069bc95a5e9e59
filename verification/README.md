# sentinel_bot

The decisions of a Discord community bot, written in Verus and proved
against their contracts: what the bot answers, which roles it grants or
removes, which buttons and commands it accepts, and how it reads the
identifiers it writes.

## Layout

- `src/` — the verified library, one module per feature:
  - `text`, `config`, `guild_config`: texts, numbers and the per-guild
    settings every feature reads;
  - `coude`, `challenge`, `duel`, `profile`, `prank`, `curses`, `help`,
    `milestones`, `ultimates`, `prison`, `tournament`: the "Coup de Coude"
    mini-game (challenges, duels, heists, insurance, rest, inventory,
    pranks, curses, season posts);
  - `progression`: level roles, voice XP and role resynchronisation;
  - `security`: join measures, captcha and the security history;
  - `moderation`, `templates`: sanctions, warnings, calls and reason
    templates;
  - `slot`, `games`: the slot machine and the game subscriptions;
  - `dates`: the API's RFC 3339 times read into Unix seconds and compared
    with the current time.
- `tests/` — tests of the library on concrete values.
- `app/` — plain Rust around the library: reading the clock, the
  environment, JSON payloads of the event stream, and the XP multipliers,
  which work on floating-point numbers.

Calls into `regex`, `rand`, `uuid` and `chrono` (RFC 3339 parsing) stand
in `src/` behind small wrappers whose contracts state or name what the
crate returns.
