# atem_core

A control client for Blackmagic Design ATEM video switchers, with its logic verified by Verus.

- `src/` is the verified library:
  - `address` – dotted-quad IPv4 text and what it denotes;
  - `connection` – link status, client errors, the endpoint to connect to, and the steps of
    the loops that follow the switcher's state;
  - `source` – video sources, tally flags, keyer records, transition styles;
  - `snapshot` – the switcher state that is read and the snapshot published from it;
  - `dto` – the plain records handed to the desktop interface;
  - `commands` – switcher commands and how interface requests resolve to them;
  - `ui` – the switcher panel: selections, controls, commands and labels;
  - `laws` – properties that relate several of the above;
  - `text` – decimal notation, joining, comparison of texts.
- `app/` holds the asynchronous client over the `necromancer` protocol library, the Tauri
  command host and the GPUI panel; it takes every decision through `atem_core`.
- `tests/` exercises the library on concrete values.
