# squeak

Logic of a small Windows utility that tracks the battery of Keychron mice speaking the
vendor HID protocol on usage page `0xFFC1`, verified with Verus.

- `src/` — the verified library:
  - `report` — report constants, classification of reports read from the mouse channel,
    the status request, battery and report descriptions;
  - `info` — which HID collections are mouse channels, vendor and report-ID checks,
    device labels and product names;
  - `paths` — splitting a device interface list into NUL-terminated paths;
  - `session` — decisions of the event loop: wait results, wait timeout, per-device
    poll state;
  - `text` — decimal and hexadecimal formatting, log lines.
- `app/` — the Windows program: Win32 device enumeration, overlapped I/O, the event loop.
- `tests/` — tests of the library.
