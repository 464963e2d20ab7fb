# pashari

Captures a part of the screen, as a picture or a recording, and annotates
pictures. The program waits in the tray; a hotkey freezes the desktop and lets
a region be selected, and an editor draws arrows, shapes, texts, numbers and
mosaics on a picture.

## Layout

`src/` is the library. Verus proves it:

- Items: `annotation`, `transform`, `measure`, `style`, `order`, `stroke`.
- Pixels: `grid`, `pixels`, `paint`, `bake`.
- The editor: `editor` (its state), `commands`, `press`, `drag`, `release`,
  `canvas`, `events`, `opening`, with `toolbar`, `fields`, `keys`, `history`;
  its laws are in `laws`.
- The selection: `overlay` (its state), `selecting`, `recording`, `files`,
  `backdrop`, with `menu`, `monitors`, `region`; its laws are in
  `overlay_laws`.
- The program in the tray: `resident`, `settings`, `icon`.

The library holds no floating point. Coordinates that are not whole and text
sizes are type parameters (`F` and `S`), and what has to be computed with them
comes in as a closure, or measured beforehand as whole numbers.

`app/` is the program around it: windows, painting, files, and everything that
computes with floating point. `tests/` runs the library.
