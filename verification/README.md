# window_switcher

The decision logic of a keyboard-driven window switcher (`Alt+Tab` between apps,
``Alt+` `` between the windows of one app), verified with Verus.

`src/` is the verified library:

- `keyboard`: the per-hotkey press state machines and the keyboard hook's handling
  of one key event (which actions to send, whether to swallow the key).
- `switch_apps`: app entries, the representative-window policies, and the switcher's
  selection state with inline window cycling.
- `preview`: whether an entry shows a live thumbnail.
- `layout`: the overlay's grid of cards, thumbnail areas, icons and window dots,
  hit testing, and the range checks that rule out integer overflow.
- `painter`: the per-frame drawing plan (cards, icons, dots, thumbnails, opacity).
- `palette`: theme colors and channel blending.
- `geometry`, `handles`, `config`, `text`, `inspect`: rectangles, handle values,
  settings, setting-value normalization and report labels.

The laws of `keyboard`, `switch_apps`, `layout`, `painter` and `palette` are public
proof functions (`lemma_*`); the other modules state what they do in their
functions' contracts.

`app/` holds the platform side: installing the low-level keyboard hook, painting the
layered window with GDI/GDI+, driving compositor thumbnails step by step as the
library directs, and printing the window inspection report. Drawing rounded shapes
with floating-point GDI+ paths is the one piece of logic that stays there.
