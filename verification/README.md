# tdt

The decision and data logic of a command-line toolkit for engineering
artifacts (requirements, risks, tests, components, assemblies, processes,
controls, NCRs, CAPAs, quotes, production lots), written in Verus and
verified against its contracts.

- `src/` — the verified library: entity links and their edits on entity
  files, CSV import rules and the files they produce, list filters, sort keys
  and list order, lot and CAPA state changes, the reports (verification
  matrix, FMEA, bill of materials, test status, open issues), the list
  outputs (quotes, features, NCRs, CAPAs, processes, components,
  assemblies, mates, controls, lots), the lot display, the quote
  comparison, price breaks, the link check report, and the text helpers
  they share. Calls into `csv`, `tabled` and `serde_yml` sit behind small
  trusted wrappers whose contracts name what those crates return; the YAML
  edits of entity files are verified step by step over what `serde_yml`
  reads and writes.
- `tests/` — tests of the library on concrete values.
- `app/` — the command-line side: argument definitions (`clap`), files and
  directories, `git`, printing the lists and reports the library writes, and
  decimal numbers (costs, masses, prices, percentages), which the library
  does not hold.
