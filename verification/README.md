# sqlite_plugin

A SQLite VFS in Rust: implement the `Vfs` trait, register it, and SQLite stores
its databases through it.

- `src/` is the verified core. It decides what each of SQLite's callbacks does:
  how raw arguments are checked and converted, which method of `Vfs` is called,
  and what goes back to SQLite. `register` drives a registration, and states that
  SQLite is never given a method table that promises more than it holds.
- `app/` is the C side: pointers, function tables and the calls into SQLite.
- `tests/` runs the core against VFSs in memory.
