# freshbooks_mcp

An MCP server for the FreshBooks accounting API, with its logic verified by Verus.

- `src/` is the verified library: a JSON model of FreshBooks answers and
  request bodies (`json`), text helpers (`text`), listing lines (`rows`),
  query percent-encoding (`urlencode`), configuration paths and checks
  (`config`), tool arguments (`params`), the API client's state, token and
  status decisions and errors (`api`), and each tool's requests and answers
  (`server`).
- `app/` is the program around it: `main`, the MCP tool router (rmcp), HTTP
  (reqwest), the configuration and token files, the clock, and the
  conversions between `serde_json` values and the library's JSON model.
- `tests/` exercises the library on concrete values.
