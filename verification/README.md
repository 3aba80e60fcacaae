# warp_client

Verified client-side rules of the Warp app, written in Verus.

`src/` is the library. Every function there carries a contract that Verus
proves, with one exception: `text::push_char`, a trusted wrapper around
`String::push` (vstd gives no verified way to append one `char` to a
`String`), whose contract states what that method's documentation says.

- `teams_page`, `workspace`: which member and invite actions a viewer is
  offered on the teams page, which sections the page shows, when a team can be
  left, and which open teams can be joined.
- `harness_availability`: the cache of auth secrets per team scope and
  harness, and how created and deleted secrets update it.
- `cloud_agent_settings`: per-scope auth secret preferences with the legacy
  per-harness selection as fallback.
- `platform_error`, `string_map`: platform-error information and its GraphQL
  response and input forms.
- `grok_plugin`, `versions`: the Grok Build hooks plugin (its files, the
  install steps, version checks).
- `retry`: the decisions of retrying on a backoff schedule.
- `confirmation_dialog`, `api_key_modal`, `secret_scope`,
  `isolation_platform`, `ids`, `remove_user_from_workspace`, `text`.

Collections are held in forms whose contents vstd can state:

- `string_map::StringMap` keeps the metadata map as a `Vec` of entries sorted
  by key with no key twice. vstd specifies `BTreeMap` only for key types
  whose ordering it knows, and `String` is not one of them.
- The auth secret cache in `harness_availability` is a `Vec` of entries
  whose keys (a team scope and a harness) occur at most once, an invariant of
  the type; the preference store in `cloud_agent_settings` is a `Vec` of
  entries read as a map in which a later entry for a scope replaces an
  earlier one. Their contracts speak of the `Map` from keys to values.

`app/` performs the I/O around the library: environment variables, the file
system, command-line parsing with clap, serialization with serde, and the
asynchronous retry loop.

`tests/` exercises the library on concrete values.
