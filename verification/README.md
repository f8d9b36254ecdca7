# z2pgh

A newsletter service: visitors subscribe with a name and an email address,
confirm through a link sent to them, and confirmed subscribers receive each
issue that is published.

- `src/` is the library, verified with Verus: validation of subscriber names
  and addresses (`domain`), the decisions of the subscribe, confirm and publish
  flows (`routes`), the emails they send (`email`), the rendering of error
  chains (`error_chain`) and of listen addresses (`text`), and a model of
  what the service's statements leave in the database (`store_model`), over
  which the laws of confirmation are proved. Each flow that waits
  on the database or the email service is a step function from state and
  outcome to next state and action.
- `app/` is the HTTP server (tide), the database access (sqlx), the email
  client (surf) and the configuration; it performs the actions that the library
  asks for and hands back their outcomes.
- `tests/` exercises the library on concrete values.

Subscriber names are measured in grapheme clusters with `unicode-segmentation`,
and addresses are checked with `validator::validate_email` (the HTML5 rule);
the domain types call these crates for that.
