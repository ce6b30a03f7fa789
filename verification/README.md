# poppler

A binding to the Poppler PDF library (GLib interface).

- `src/` is the verified core: password and path checks, the `file:///` URI
  handed to GLib, C strings without interior NUL bytes, the conversion of
  strings returned by Poppler, page index and count conversions, and the page
  iterator with its ordering law.
- `app/` makes the calls into Poppler, GLib, GObject and cairo, and wraps the
  results in the public `PopplerDocument`, `PopplerPage` and `PagesIter` types.
- `tests/` exercises the core on concrete values.
