# gpui-playground

A GPUI playground window: a greeting, a row of colour swatches, a numbered list whose
entries report clicks, and a drag-and-drop panel whose target takes on the colour of
the last item dropped on it.

- `src/` is the verified library: decimal rendering of numbers (`decimal`), the texts
  the views show (`labels`), the palette (`palette`), the root view's swatches and list
  rows (`root_view`), and the drag-and-drop state (`drag_drop`).
- `app/` draws the window with GPUI from the library's values.
- `tests/` runs the library on concrete values.
