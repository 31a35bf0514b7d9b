# mobailmux

A small web service that runs command-line coding agents (Pi, OpenCode) in
named slots, keeps each slot's transcript in SQLite, and shows saved Codex
sessions and usage.

- `src/` is the library, written in Verus: every function states what it
  returns in its contract, and Verus proves it. It holds the service's rules:
  settings, authentication and session cookies, slot names, slash commands,
  how a harness is launched and how its output is read, transcripts and their
  HTML, Codex session parsing and usage, the app-server exchange, and the
  page itself. Calls into `serde_json`, `chrono`, `sha2`, `hex`, `base64`,
  `subtle`, `argon2`, `pulldown-cmark` and `url` sit behind small trusted
  wrappers that only convert values. Their contracts state what the
  crates' sources show: an exact result where it is short to state, a name
  for a result that depends on the arguments alone, and, for a result that
  depends on the clock or the machine's time zone, only what holds whatever
  the clock or zone is (a local time is the stored instant shifted by less
  than a day). How Markdown events are rewritten (raw HTML turned into escaped text,
  code blocks given their own markup) is library code, and the contract of
  `message_body_html` states that raw HTML never reaches a page as markup.
- `app/` is the program around it: the `axum` server, the SQLite store
  (`rusqlite`), processes (`tokio`), files, the clock, random numbers, and the
  floating-point percentages of Codex usage windows.
- `tests/` runs the library on concrete inputs.

The page's style sheet and script are read at start-up from the files that
`MOBAILMUX_PAGE_CSS` and `MOBAILMUX_AGENTS_JS` name (`assets/page.css` and
`assets/agents.js` by default).
