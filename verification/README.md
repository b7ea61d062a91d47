# poweralert

The rules of a desktop battery monitor, verified with Verus, and the Tauri
application around them.

- `src/` — the verified library:
  - `domain::battery_alert`: when a reading calls for an alert (plug in on
    battery at or below the low threshold, unplug on the charger at or above
    the high threshold) and the alert's text;
  - `domain::decimal`: decimal text of an integer;
  - `domain::battery_status`: charging states and whether the machine is on
    the charger;
  - `domain::battery_analytics`: the bounded reading history;
  - `application::monitor_service`: the monitor's tick state machine (when to
    report, when to retry a failed reading) and the alert deduplication;
  - `infrastructure::battery_adapter`: the battery adapter and how the
    system's cell states map to charging states.
- `app/` — the Tauri program: battery and file I/O, the monitoring loop,
  windows and tray, and everything that computes on measured
  (floating-point) values.
- `tests/` — tests of the library.
