# frontend

The logic of the Lightfriend web dashboard as a verified Verus library.

- `src/` holds the dashboard's rules with their contracts: text and link
  handling (`text`, `media`, `link_forms`), what needs attention and the home
  screen (`attention`, `home`, `items`, `overview`, `footer`), the activity
  feed (`activity`, `dismissed`), contacts and people (`contacts`,
  `profiles`, `people`, `always_show`), the media player (`player`), the
  vehicle controls (`vehicle`), phone settings and pairing (`device`,
  `phone`), the agent panel (`agent`) and time formatting (`clock`).
  Panels are state machines: each takes an event and returns the step to
  perform (a request to send, a fetch to start); the rendering layer that
  feeds them events is not part of this crate.
- `tests/` runs the library on concrete values.
- `app/` is the browser side: JSON in and out of the library's types, the
  page's clock, calendar and local storage.
