# abt_purchase

The decisions behind the purchase and quality pages of an ERP back office —
reading and checking submitted forms, list filters and query strings, status
labels, step bars, the actions a document offers, totals and percentages,
and the work center's summary cache — written in Verus with their contracts
proved.

## Layout

- `src/` — the verified library.
  - `text`, `query`, `form`: reading and writing texts, ids and numbers;
    `key=value` query strings; form fields and the errors a form is answered
    with.
  - `decimal`, `date`: decimals (held as mantissa and scale, computed by
    `rust_decimal`) and dates (held as day numbers, read by `chrono`).
  - `status`, `workflow`, `ids`: document states and their codes, step bars,
    sets of ids.
  - `pages/`: one module per page, holding its forms and queries and what
    the page decides.
- `tests/` — tests on concrete values, run against the real `rust_decimal`
  and `chrono`.
- `app/` — the web side: serde copies of the forms, JSON reading, the clock,
  floating-point money texts and HTML fragments.
