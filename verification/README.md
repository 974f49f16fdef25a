# pico-gnss

A clock for the RP2040 that is disciplined by the 1PPS of a GNSS receiver, and a time server and
client that carry its time over two wires of 10BASE-T. The 1 Hz edge marks the UTC second; the clock
captures it in hardware, estimates the crystal's frequency error, steers an output pulse onto it, and
keeps time through holdover while the reference is gone.

- `src/` is the library, written in [Verus](https://github.com/verus-lang/verus): the estimators,
  control loops, parsers, frame and line codes, and the decisions of every task, each with a contract
  that is proved. What holds across several calls is stated by the public proof functions whose names
  begin with `law_`. It is integer-only and touches no hardware.
- `app/` is the firmware around it: pins, counters, DMA, ports and the loops that wait for them.
- `tests/` runs the library on concrete values.

What the proofs rest on, besides Verus itself, is marked `external_body` and documented in place: the
fixed-capacity buffers of `heapless`, and the RMC parser of `nmea`.

## Hardware

- RP2040 board; GNSS module with NMEA and 1PPS (e.g. AE-GNSS-EXTANT, MediaTek MT3333, 9600 baud).
- UART0 RX = GP1 (module TX), UART0 TX = GP0 (module RX), 1PPS in = GP2, generated 1PPS = GP3 with a
  loopback to GP4.
- Server and client: Ethernet TX- = GP16, TX+ = GP17, other pair on GP18 and GP19, 1PPS out = GP6.
