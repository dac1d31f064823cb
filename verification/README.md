# firmware

Verified decision logic of a USB-C powered reflow hotplate.

`src/` is the library, checked by Verus:

- `profiles` – reflow profiles, their duration and where a run stands after a given time.
- `pd` – the model of a USB PD source's capabilities, the choice of the supply to
  request, and negotiation over an answering function.
- `sink` – the calls into `usbpd` that build requests, CC-line attachment and
  orientation, and driver error mapping.
- `control` – the profile menu, the supply for a run, the heating/cooling stages of a
  run and the buzzer signals.
- `sensor` – the median of the thermistor samples.
- `layout`, `ui`, `text` – the profile menu layout, the progress screen geometry and the
  texts shown. Texts are built as `String`s whose contents (and, where the display has
  a fixed room for them, lengths) the contracts state; `app/` copies them into the
  display's fixed-capacity `heapless::String`s.

`app/` is the firmware around it: peripherals, async tasks, drawing, and the
floating-point conversions (thermistor model, PID control, target temperature).
