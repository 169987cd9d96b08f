# rustball

A small web service about a baseball league (team pages, batting averages,
player tags, Twitter sign-in), backed by MongoDB.

- `src/` is the verified library: team lookups (`team`), the JSON
  replies of the REST API (`response`), the queries and aggregation
  pipelines it runs (`query`, `pipeline`) as plain document trees
  (`document`), the checks made on request
  parameters, the reading of Twitter's request-token reply
  (`token_reply`), the sign-in flow as a state machine (`sign_in`), page
  and style-sheet paths (`page`), and string helpers (`text`).
- `app/` is the server around it: routing, HTTP, database and file I/O.
- `tests/` runs the library on concrete values.

The server reads the Twitter consumer key and secret from the
`TWITTER_CONSUMER_KEY` and `TWITTER_CONSUMER_SECRET` environment variables.
