# html_2_md

The verified decisions of an HTTP component that serves web pages to
automated readers as Markdown. A request names its origin page in the
`x-origin-url` header (URL-safe Base64, padding optional); the component
fetches the page over `https` only, follows up to ten redirects to
`https` targets, relays anything that is not
HTML unchanged and converts HTML (up to 10 MiB) to Markdown. Every error is
answered with `{"error":"<message>"}` (the message escaped as a JSON
string) and status 400, 422 or 502.

Layout:

- `src/origin.rs` reads the header: padding, Base64, UTF-8, the `https` check.
- `src/forward.rs` chooses the request headers that travel to the origin.
- `src/fetch.rs` is the fetch as a state machine over responses and redirects.
- `src/body.rs` decides between relaying and converting, buffers HTML within
  the limit and builds the Markdown reply.
- `src/failure.rs` holds the failures, their statuses and JSON bodies.
- `src/text.rs` holds character-level helpers.
- `app/lib.rs` is the Spin component: it performs the I/O and asks the
  library what to do at each step.
