# rusty_chat

The session, socket and authentication logic of a live chat server, written
in Verus with its contracts proved.

- `src/` is the verified library: the session table (`session`), the
  registry of open sockets (`sockets`), sign-up, login, login sessions and
  logout (`auth`), the decisions of a chat socket (`socket_actor`), the
  watcher socket (`watcher`), time (`clock`), session ids (`ids`) and
  password hashing (`password`). `laws` holds the properties that relate
  these operations.
- `app/` is the actix-web server around it: HTTP handlers, web socket
  actors, the SQLite queries and JSON.
- `tests/` runs the library on concrete values.
