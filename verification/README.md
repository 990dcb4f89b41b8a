# jrep

The request rules of the JRep web site, written in Verus and verified.

- `src/` is the library. Each request flow (sign-up, log-in, the Google and
  GitHub callbacks, username setup) is a state machine: it starts from the
  request, asks the web layer for one outside action at a time (a database
  lookup or write, a call to a provider), is told the outcome, and finally
  answers with a reply or an error. Passwords are hashed and checked with
  bcrypt, and tokens signed and read with jsonwebtoken, inside the library. The modules:
  - `validation`: the posted forms, their field rules and the error list
    they are refused with;
  - `query`: reading a parameter from a query string;
  - `password`: bcrypt hashing and checking;
  - `oauth`: consent addresses, token requests, the identity in a profile;
  - `tokens`: signing and reading session and temporary tokens;
  - `http`: replies and cookies as plain values;
  - `flow`, `signup`, `login`, `callback`, `setup`: the flows, and the
    rules of the account table that they keep;
  - `pages`: the site's pages, their templates, titles and paths, and
    rendering a template with Tera;
  - `error`, `text`: errors and string helpers.
- `tests/` runs the library on concrete values.
- `app/` is the server: actix-web, PostgreSQL through sqlx, Tera templates,
  the clock, random identifiers and the HTTP calls to the providers. It
  performs the actions the flows ask for and turns their replies into HTTP
  responses.
