# boxing_gym_backend

The back end of a boxing gym: members and their plans, courses and their dated
sessions, bookings with a waiting list, announcements and a blog, served as a
JSON API over HTTP and stored in SQLite.

- `src/` is the library, written in Verus. It holds the domain rules with their
  contracts: how records are created and changed, how stored kinds are named
  and read back, how slugs and tag lists are made, how a booking is placed in a
  session, who may do what, how listings are paged and queried, and how errors
  are reported. Calls into `uuid`, `chrono`, `bcrypt`, `validator` and a few
  `std` functions stand behind small trusted wrappers whose contracts say what
  the library relies on.
- `app/` is the server around it: configuration, the actix-web routes and
  handlers, the sqlx store, signed tokens with jsonwebtoken, and the serde
  shapes of requests and answers.
- `tests/` exercise the library on concrete values.
