# scan_statistics

Statistics of a directory scan: counters of requests, responses and errors, the commands that
update them, and the replay of statistics that an interrupted scan saved.

- `src/` is the library, verified with Verus.
  - `command`: the commands and the fields that they name
  - `counter`: counters that wrap around
  - `status`: HTTP status codes and their classes
  - `stats`: the statistics, and what each update adds to which counter
  - `handler`: what a command does to the statistics and what it asks for besides
  - `message`: the text that the progress bar shows
  - `json`, `resume`: finding saved statistics in a state file and taking them up
  - `laws`: what holds over all commands and runs of commands
- `app/` runs the handler on a channel, with the progress bar and the files around it.
- `tests/` runs the library.

Times are kept by the bit pattern of their double-precision values; `app/` converts.
