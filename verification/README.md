# cdisklinker

Moves large directories off the C: drive of a Windows machine and leaves an
NTFS junction in their place, so that programs keep finding their data.

- `src/` is the verified library (Verus). The migration itself, the start-up
  recovery from the journal, confirmation and instant rollback, undoing a
  finished migration, and the migration archives are state machines: each
  step takes the outcome of the last file system action and returns the next
  action, and the laws about them (what is never deleted, what is written
  before what) are proved over their transition relations. Manifests, path
  rules, directory ratings, size texts and the parsing of Windows command
  output are plain functions with contracts.
- `app/` is the command-line program around it: it performs the actions on the
  disk, calls Windows, and reads and writes the JSON files.
- `tests/` drives the library with made-up disk answers.
