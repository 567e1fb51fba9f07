# toodle

A to-do list kept in a Mentat (Datomic-style) store over SQLite, with a C interface.

- `src/` is the verified library. It holds the data model (`labels`, `items`,
  `categories`, `ids`, `timespec`), the text of every transaction and query the list
  sends to the store (`transactions`, `queries`, `text`), the decoding of the store's
  answers (`values`), and the laws that tie them together (`laws`).
- `app/` is the unverified shell: the store (a Mentat connection over SQLite), the list
  manager that runs each operation against it, and the `extern "C"` functions.
- `tests/` runs the library on concrete values.
