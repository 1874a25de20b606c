# shortener

A URI shortener: `POST /_shorten` stores a URI and answers with its short
form, `GET /:s_uri` redirects to the stored URI and records the visit,
`DELETE /_delete/:s_uri` removes a short URI, and `GET /_info/:s_uri/:page`
lists its visits, a hundred to a page.

- `src/` is the verified library: decimal text of row ids (`decimal`),
  paging (`paging`), the visit records and their JSON encoding (`structs`),
  the request line types (`http_structs`), the storage procedures as step
  functions that name each SQL statement to run (`storage`), and the
  decisions of the four routes as a step function from stage and outcome to
  next stage and action (`routes`), with the properties proved of them
  (`storage_laws`, `route_laws`).
- `app/` runs the service: the HTTP server, the SQLite connection pool, the
  running of statements, and reading the shorten request body; it performs
  the actions the library asks for.
