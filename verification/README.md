# txtdot

An HTTP proxy that keeps only the text, links and pictures of web pages. Pages
are fetched and converted by the `drova` requester, rendered as HTML (or as a
daletpack download), and their links are rewritten so that documents, media,
files and images go through the proxy.

- `src/` is the library, verified with Verus: configuration (`config`), output
  formats, reading and rendering (`drova`), the markdown shapes the reader
  refuses (`footnotes`), link rewriting (`links`, over the `url` and
  `lol_html` crates: `urls`), the raw and image proxies (`proxy`), the decisions
  of the routes (`routes`), errors and replies (`error`, `reply`), string
  helpers (`text`) and properties that span functions (`laws`).
- `app/` is the server: environment, HTTP routing with axum, fetching with
  reqwest, templates with tera, logging.
- `tests/` runs the library on concrete values.
