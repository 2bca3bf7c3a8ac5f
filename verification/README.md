# nuimo

SDK for the Senic Nuimo Control BLE knob and an MQTT bridge for it, with
its logic verified by Verus.

- `src/` — the verified library: the 9x9 LED glyph and its 13-byte display
  payload (`glyph`), the bridge's own glyphs (`glyphs`), decoding of the
  device's notifications (`event`, `gatt`), recognising a Nuimo during a
  scan (`discovery`), what a device handle remembers and sends (`device`),
  the glyph registry fed by retained MQTT messages (`registry`), and the
  bridge's topics, broker endpoint, event mapping, feedback glyphs and
  heartbeat (`bridge`, `config`, `text`).
- `app/` — the `nuimo-mqtt` program and the asynchronous BLE side: BlueZ
  (`bluer`) and CoreBluetooth (`btleplug`) backends, the `NuimoDevice`
  handle, the MQTT client (`rumqttc`), and the floating-point views of
  events and display options.
- `tests/` — tests of the library.
