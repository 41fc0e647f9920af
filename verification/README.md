# pdfce_gui

The verified core of the pdfce desktop shell, written in Verus.

`src/` holds the logic the shell's windows run on, each public function
with a contract Verus proves:

- `canvas::tool` — which pointer tool is armed, the space-bar hand, and the
  cursor precedence;
- `canvas::textsel` and `canvas::writing` — what a text selection copies,
  how its highlight boxes group by line, and how rotated text is gathered
  into lines;
- `icons` — the icon catalogue and the reader of the SVG subset the icons
  are drawn in, with its path-data grammar, and the proof that a separator
  after an arc flag reads the same segments as the packed spelling;
- `dialogs` — which dialogs are open, the two guards every one of them
  applies, the print, recognition, unsaved-edits, text-annotation and
  dimension-group transactions;
- `diag` — the change gate that keeps the diagnostic channel from
  repeating itself, and the frame-by-frame register of the regions the
  windows publish.

`app/` is the egui/eframe shell around it: the window, the drawing of the
dialogs, the tiny-skia icon rasterizer and the floating-point geometry that
Verus does not reason about.
