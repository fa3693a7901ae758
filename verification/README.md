# esp32-mqtt-blink

Firmware for an ESP32 that drives its LED over MQTT: `blink <0-10>` on one topic,
`switch on|off|toggle` on another, status reports on a third. The decisions are a Verus library;
the firmware around it only talks to the hardware and the network.

- `src/config.rs`: settings and the check that refuses an empty network name
- `src/led.rs`: modes, the level-to-delay table, what one pass of the display loop drives
- `src/text.rs`: UTF-8 text, surrounding white space, decimal numbers
- `src/message.rs`: what a payload on a topic asks for
- `src/status.rs`: reasons and the JSON status payload
- `src/device.rs`: the state of the device, its commands and its boot-time defaults
- `src/subscriber.rs`: the order of the subscriptions, with retries
- `app/`: WiFi, the MQTT client, the pin and the threads

Functions named `law_*` state what holds of the library as a whole, for example that a switch
command never resumes the blink, that the offline fallback cannot fire once both topics are
subscribed, and that a status payload determines the mode, the reason and, while the LED blinks,
the level.

Two functions of the standard library are trusted by contract, both in `src/text.rs`:
`core::str::from_utf8` and `str::trim`.
