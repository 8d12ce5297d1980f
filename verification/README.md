# ublx

The decision logic of the UBLX catalog browser, written in Verus with its
behaviour stated in `requires` / `ensures` contracts and proved.

Layout:

- `src/` — the verified library. Catalog path helpers (`catalog`), URL
  building and percent-encoding (`url`), the keyboard map (`keys`), mode
  navigation and the address bar (`nav`), panes and tabs (`layout`), search
  filters (`search`), sorting (`sort`), the toast stack (`toast`), the Space
  menu (`menu`), Command Mode (`command`), help, search, find, multi-select
  and list navigation state (`state`), serve payload views and messages
  (`api`), right-pane viewer decisions (`viewer`), the per-mode contents
  (`modes`), the shell's key dispatch (`shell`), theme views (`theme`), and
  the text helpers they share (`text`). Properties that span several calls
  stand as public proof functions named `law_*`.
- `tests/` — ordinary Rust tests against the compiled library.
- `app/` — the unverified edge: file-system and environment access for
  directory arguments, and the serde copies of the library's types that read
  serve responses.
