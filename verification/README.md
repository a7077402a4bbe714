# jot_mcp

An MCP server over the Core Data SQLite store of the Jot notes app. The
verified library (`src/`) holds everything the tools decide and compute; the
program around it (`app/`) opens the database, runs statements, reads the
clock, serialises records to JSON and speaks the protocol.

Library modules:

- `text`: decimal rendering of integers, ASCII upper-casing, splitting on a
  separator and joining, with the law that splitting then joining gives the
  text back.
- `records`: notes, folders and tags, and how a note is decoded from a query
  row (flags, comma-separated tags, creation time moved to the Unix epoch).
- `sql`: every SQL statement the tools run, with its text and bound values
  stated exactly; each statement binds one value per placeholder, and an
  update assigns exactly the fields it is given.
- `placeholder_counts`: the placeholder count of each fixed piece of SQL.
- `ident`: random UUIDs for new records and Jot's reminder identifiers.
- `replies`: the answer text of every tool, and the decision behind deleting
  a note for good (only a note in Trash is deleted).
- `config`: where the database file is found.
