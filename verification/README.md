# timer_lib

TimerApp is a tray countdown for Windows: after each work period it locks the
screen (or shuts down), optionally within a daily time window and on chosen
weekdays, with an advance notice that lets the user delay, confirm or cancel
within a daily quota, optional rest periods with enforced re-locking, offline
activation codes and an exit password.

- `src/` is the verified library (Verus). Each module states its behaviour in
  `requires`/`ensures` over spec functions, and the properties that span calls
  are proof functions named `law_*`.
  - `timer`: the countdown engine and its transitions; `events`: reactions to
    each second, to start-up and to the tray menu; `commands`: the front end's
    commands; `config`: the configuration model; `notifier`: notices, delays,
    confirmation and cancellation; `schedule`: the time-window and weekday
    rules; `activation`: HMAC-signed activation codes; `security`: the exit
    password; `system`, `single_instance`, `logger`: decisions behind the
    operating-system effects; `text`, `clock`, `crypto`: strings, the clock and
    the outside crates' primitives.
- `app/` is the Tauri shell: configuration file, clock thread, tray, windows,
  system commands and logging.
- `tests/` runs the library on concrete values.
