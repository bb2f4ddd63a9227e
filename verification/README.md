# pipeweaver_midi

Drives the Pipeweaver audio daemon from a MIDI control surface: buttons and
faders on the controller are bound to volumes, mutes, routes and mixes of the
daemon's devices.

- `src/` is the verified library (Verus):
  - `behaviours`: how a MIDI data byte becomes a button state (toggle, push)
    or a level (relative encoders in three styles, a stepping axis; the
    absolute axis is described there and rescaled by the application);
  - `midi`: MIDI messages as plain values, their decoding from port bytes and
    the callback tree that binds (channel, kind, number) to a callback;
  - `pipeweaver_controllers`: the daemon controls, the requests that set them
    and how their current values are read from the daemon's status;
  - `config`: where the configuration file is looked for by default;
  - `ui` and `tray`: the decisions of the configuration window (behaviour
    selection, the routing grid, saving and deleting bindings) and of the
    tray icon.
- `app/` is the program around it: MIDI ports, the websocket link to the
  daemon, the configuration file, the egui window and the tray icon.
- `tests/` exercises the library on concrete values.
