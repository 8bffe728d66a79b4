# onedrive_api

A client for the OneDrive API through Microsoft Graph, written in Verus.

- `src/` is the verified library. It describes every request that the client
  sends (method, URL, token, query parameters and headers of the options,
  `Content-Range`, body) as a plain value, checks file names and paths,
  reads the byte ranges of upload sessions
  (`{lower}-` or `{lower}-{upper}`), reads the `Location` header of a copy,
  and drives the page-by-page fetching of collections. URLs are joined and
  percent-encoded by the `url` crate.
  - `location.rs`: drives, items, file names, paths and URL path segments.
  - `request.rs`: the description of a request.
  - `option.rs`: the options (`$select`, `If-Match`, conflict behavior, ...).
  - `onedrive.rs`: the request of each operation, upload sessions, the page
    fetcher and the errors of unexpected answers.
  - `text.rs`: decimal numbers and characters.
- `app/` sends the requests with `reqwest`, decodes the answers with `serde`
  and offers the asynchronous API (`OneDrive::get_item`, `upload_to_session`,
  `ListChildrenFetcher::fetch_all`, ...).
- `tests/` runs the library on concrete values.

`serde_json` is a dependency of `app/` and `tests/` only: `app/` keeps the
`Drive` and `DriveItem` resources as JSON values (`serde_json::Value`), and
the tests pass range texts through JSON as the service sends them.
