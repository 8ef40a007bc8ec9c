# usage-widget

A Windows tray widget that shows how much of a subscription's usage limits is
used: a 5-hour session window and a weekly one, with a projection of where the
week is headed. It draws a badge for the tray, writes the tooltip and the menu,
paints a small floating panel, and shows the CPU temperature beside it.

- `src/` is the library, verified with Verus: fetching and its back-off, the
  texts, the pictures, the panel's geometry and painting, and what the stored
  settings mean. It computes on plain values and does no input or output; the
  clock and the time zone are read through `chrono`.
- `tests/` runs it on concrete values.
- `app/` is the program around it: the HTTP request, the registry, the windows
  and the event loop.
