# mech_car

Control logic for a Raspberry Pi Pico W robot car driven by an Xbox Wireless
Controller over Bluetooth LE: a TB6612FNG dual-motor driver, an SG90 steering
servo and an SSD1306 status display.

* `src/` — the verified library (Verus):
  * `xbox` — decoding the controller's 16-byte HID input report, stick and
    trigger percentages;
  * `motor` — the motor driver's pin and PWM state, and the trigger/stick to
    drive-command mapping;
  * `servo` — the servo's pulse width for a commanded angle and the stick to
    angle mapping;
  * `bluetooth` — recognising a controller from its advertising data, the
    scan-result sink, and the HID report display lines;
  * `link` — the discover / connect / bond / stream state machine;
  * `wireless`, `board`, `text` — the status lines shown on the display;
  * `mech_hal` — board-independent GPIO and I2C interfaces.
* `app/` — the firmware around it (embassy tasks, the radio, PWM, GPIO and the
  display), which performs what the library decides. The motor mixing, which
  is floating-point arithmetic, is here too. The cyw43 firmware blobs are
  expected under `app/blobs/`.
* `tests/` — tests of the library on concrete values.
