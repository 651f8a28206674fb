# window_controls

Caption controls for frameless Tauri windows on Windows: a title bar overlay
with native-looking caption buttons, a hover overlay that brings up the Windows 11
snap-layout flyout over the maximize button, and caption glyphs taken from the
system icon fonts.

- `src/` is the verified library (Verus). It holds every decision the plugin
  makes: what enabling the overlay asks of a window and the scripts it injects
  (`scripts`, `models`), the caption actions (`caption`), where the snap overlay
  sits (`geometry`), the hover/press/click state of each overlay and the events
  it reports (`snap`), and the font search and SVG path spelling for caption
  glyphs (`glyph`, `digits`).
- `app/` is the Tauri plugin around it: commands, the extension traits on Tauri
  windows and builders, and the Win32 and DirectWrite calls, which perform what
  the library decides. Glyph outlines are normalized there, in floating point.
- `tests/` exercises the library on concrete values.
