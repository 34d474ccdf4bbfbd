# modio

A client library for the mod.io REST API whose logic is verified with Verus.

- `src/` — the verified library: credentials and the authentication flow
  (`auth`), the client handle (`client`), errors (`error`), decimal and
  `application/x-www-form-urlencoded` encodings (`encoding`), listing options
  (`filter`), multipart forms (`form`), the mod interfaces and their option
  builders (`mods`), paged listings (`stream`), and the request rules: routes, authorisation, URL
  construction and response classification (`request`).
- `app/` — the network side: sends prepared requests with `reqwest`, decodes
  answers with `serde_json`, opens the files of multipart forms, and gives
  the library's types `Display` and `std::error::Error`.
- `tests/` — tests of the library on concrete values.
