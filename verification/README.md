# esp_thing

The logic of an ESP32-C3 "thing": a device with an RGB lamp that registers
itself with a registry over MQTT, takes its name and lamp commands from
there, and reports temperature and humidity.

- `src/` is the library, verified with Verus: the lamp's state machine and
  PWM duties (`lamp`), the thing and its decimal id (`thing`), the uuid kept
  in flash (`nvs_uuid`), the handling of events (`app`), topic routing
  (`thing_protocol`, `thing_mqtt`), the callback list (`observer`) and the
  choice of the Wi-Fi channel (`wifi`).
- `app/` is the firmware around it: Wi-Fi, MQTT, flash storage, the LEDC
  drivers and the event loop. It performs what the library decides.
