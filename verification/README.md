# press

The verified core of a small content server: it serves markdown pages,
components, navigation files and images from a content root, lets signed-in
users edit them, and lets administrators manage users.

- `src/` is the library, checked by Verus: roles (`role`), session claims and
  their lifetime (`claims`), signing and reading session tokens (`jwt`), the route guards (`guard`), argon2 password
  hashing (`password`), user records (`database`), the login decisions
  (`login`), the files each route touches (`paths`), replies (`reply`), the
  content-tree listing (`tree`) and the settings (`config`).
- `app/` is the actix-web server around it: HTTP routing, the Postgres
  queries, JSON (de)serialisation, cookies and the file system.
- `tests/` exercises the library on concrete values.
