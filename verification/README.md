# mousebatt

A tiny Windows system-tray battery monitor for Pulsar and VAXEE wireless gaming
mice. The current battery percentage is drawn directly onto the tray icon.

The logic is a library verified with [Verus](https://github.com/verus-lang/verus);
the Win32 calls around it are ordinary Rust.

| Where | What |
|---|---|
| `src/protocol.rs` | the vendors' frames and what their replies mean |
| `src/session.rs` | reading the battery and setting the polling rate, step by step |
| `src/hid.rs` | finding the mice among the HID interfaces, report buffers |
| `src/tray.rs`, `src/menu.rs`, `src/window.rs` | what is shown, listed and done on a message |
| `src/settings.rs` | what is kept in the registry |
| `src/icon.rs`, `src/digits.rs`, `src/glyph.rs`, `src/layout.rs` | the icon's pixels |
| `src/color.rs`, `src/taskbar.rs` | colours, alpha, the taskbar's colour |
| `src/text.rs`, `src/single.rs` | decimal and UTF-16 text, single-precision arithmetic on integers |
| `app/` | `main`, HID, GDI and registry calls |

Each function's contract says what it returns. The `law_…` proof functions state
what holds of several of them together.

## What it does

- Polls the mouse every 4 minutes over the vendor HID interface
- Re-reads when a USB device is plugged or unplugged (debounced) and on resume from sleep
- Icon text colour: white = normal, green = charging, red = 20% or less, gray = stale or no data
- Tooltip: model name, percentage, charging state, battery voltage (Pulsar only), polling rate
- Left-click refreshes; right-click opens the menu: refresh, polling rate, battery icon,
  start with Windows, exit

If the mouse is asleep and doesn't answer, the last known value is shown in gray and
marked stale in the tooltip; it recovers on the next poll.
