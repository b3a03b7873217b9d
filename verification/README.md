# uchat

The verified core of a small social chat service, written in Verus.

- `src/domain`: validated text types (usernames, passwords, display names,
  e-mail addresses, chat headings and messages, captions, poll headings and
  choices) and the ids of users and posts.
- `src/crypto.rs`: Argon2 password hashing in the PHC string format.
- `src/endpoint`: request and response payloads and their URL paths.
- `src/server`: decoding of stored images (data URLs).
- `src/query.rs`: the database pool's bookkeeping.
- `src/client`: the client's state: keyed notifications, toasts, the list of
  posts on show, the signed-in user, the pages, and the forms with the
  decisions they take on input and on the server's replies.
- `app/`: the parts that touch the disk, the database, HTTP, the wire format
  and the clock.
