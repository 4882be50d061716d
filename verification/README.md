# psbt_schema

Validation of the key-value records of partially signed Bitcoin transactions
(BIP 174), verified with Verus.

A record is a key, whose first byte is its type, and a value. The crate reads
the single kinds of record, checks them one by one, and keeps tables of such
checks in which all checks of one type are enforced.

- `src/schema/` holds the readers, the checks of the global, input and output
  maps, and the tables of checks.
- `src/wire.rs` and `src/keys.rs` describe the byte formats over which the
  contracts are stated.
- `src/backend.rs` holds every call into `bitcoins`, `coins-bip32` and
  `coins-core`. The contracts there are trusted; everything else is proved.
- `src/room.rs` finds out whether the lengths that a value states can be
  addressed at all, which some readers ask of their callers.
- `src/laws/` states what holds across several functions.
- `app/` offers the readers with the types of the Bitcoin crates.
