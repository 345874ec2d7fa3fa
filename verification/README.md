# timestitch

Timestitch builds journals and timelines from dated records: each input file
becomes an entry with an identifier, a time interval, a source reference and
named attributes, all found by regular expressions in the file's path and
lines.

The library in `src/` is verified with Verus:

- `clock`, `gregorian`, `period_order`: clock times and periods of the
  proleptic Gregorian calendar, their earliest and latest instants, their
  `Ymd` normal form and their order. `civil` holds the calendar arithmetic the
  contracts are stated in; `dates` makes the conversions through `chrono`.
- `gregorian_parse`, `numeric`, `weekday`, `pattern`, `util`: parsing periods
  from the capture groups of a regular expression (`regex`), with the integer
  rules of `str::parse`.
- `interval`, `record`, `attribute`: time intervals, entries and their
  attributes.
- `lines`, `text`: splitting text into lines as `str::lines` does, and the
  order of `str`.
- `application`: settings (`config`, `prefs`, `load_status`, `trace`,
  `command`), the entry schema (`schema`), building an entry from a source
  (`process`) and the order in which sources are visited (`walk`).

`app/` is the command line program: argument parsing, settings files, tracing,
file and directory reading, and the table output.
