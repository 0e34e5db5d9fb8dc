# mtg_spoilers

A verified library behind a terminal tracker of Magic: The Gathering card
spoilers, and the terminal program around it.

`src/` is the library, checked by Verus:

- `text` — character-level string operations (search, replace, trim, filter)
  over std's Unicode case mapping and character classes.
- `card` — cards, sources, confidence levels and platforms.
- `index`, `dedup` — duplicate detection by normalized name and image URL.
- `reddit` — which posts are spoilers, which are new, what card a title names.
- `scryfall` — turning Scryfall answers into Verified cards; the paged preview search.
- `fetcher` — the decisions of the fetch pipeline, post by post.
- `db` — stored names and the card listing query.
- `app` — the interface's state machine (keys, modes, selection, filter).
- `config` — settings and their defaults.
- `captures`, `clock` — the `regex` crate and the wall clock.

`app/` is the program: terminal, SQLite (sqlx), Reddit (roux), Scryfall
(reqwest), configuration file (toml), rendering (ratatui).
