# smbc

A client for SMB shares on top of libsmbclient, with a verified core.

* `src/` is the core. It holds the flag types, access control entries, names and values of extended
  attributes, timestamps and directory entries, the requests on paths, files and directories with
  the meaning of their replies, and the steps that set up a client. Everything in it is proved with
  Verus against its contracts.
* `app/` makes the calls: it performs the requests with libsmbclient and hands the replies back.
* `tests/` runs the core on concrete values.

What the core believes of other crates stands in three small functions: `percent_decode` and
`from_utf8_lossy` in `src/dir.rs`, and `utc_debug` in `src/time.rs`.
