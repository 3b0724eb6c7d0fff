# kmouse

Keyboard-driven mouse control for Windows. Ctrl+M switches mouse mode; in
mouse mode the arrow keys move the pointer, A/S/D/Q/W press mouse buttons,
Z and X turn the arrows into the vertical and horizontal wheel, `/` cycles
the pointer speed through five DPI levels, and F starts a nine-cell grid
whose digits narrow the selection down and whose Enter puts the pointer on it.

`src/` is the verified library: the key map as a state machine
(`keyboard`, `state`), the grid arithmetic (`grid`), the construction of
`SendInput` events (`mouse`), the layout of the overlay (`overlay`), the tray
icon's picture and menu decisions (`tray`) and UTF-16 text (`text`).
`app/` is the Windows program around it: the hook, the message loop, GDI
drawing, the tray icon and the calls into the Win32 API.

The overlay draws the current selection as a 9x9 field of red lines (81
fields); lines 3 and 6 are the borders of the nine cells that the digits
choose, and each of those cells shows its number 1 to 9. Because the
selection narrows one 3x3 cell at a time, every stage shows this same
picture: there is no separate row stage, no highlighted row or cell and no
"Enter" hint.
