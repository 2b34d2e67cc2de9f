# content_service

The decisions of a digital asset management service, verified with Verus.

- `src/` is the library. It decides what is to be sent, read, written and repeated, and what
  comes of it: for contents on S3, on a file system, behind a CDN and in channels
  (`storage_service`), for the identity providers Auth0 and Clerk (`auth_provider`), and for the
  two code generators `policy_macro` and `geo_ffi_macro`. Nothing in it waits or does I/O.
- `app/` is the service around it. It sends the requests, talks to S3 and to the file system, and
  hands back what came of it.
- `tests/` runs the library on concrete values.

An operation of a service gives a task that says what is to be done. Where the outcome matters,
the task has functions that take it in and say what follows: another request, a delay, an error,
or the result. The contracts speak of the views of these values, such as `RequestView`,
`JsonView` and `ErrorView`.

What the library takes from outside crates stands behind functions marked `external_body` in
`encoding`, `http`, `json`, `text`, `policy_macro` and `geo_ffi_macro`. Their doc comments say
what is claimed of the outside function.
