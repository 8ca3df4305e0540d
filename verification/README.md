# glowfetch

A live system-information dashboard and snapshot printer. The library under `src/`
holds the program's rules, each with a contract proved by Verus:

- `text`: decimal digits, string helpers, and the std string calls it relies on.
- `color`: parsing of `#RRGGBB` and `r,g,b` colors.
- `theme`: the built-in themes, panel toggles and settings.
- `config`: resolving the configuration file and command line overrides into settings.
- `cli`: reading the command line.
- `history`: the rolling sample histories behind the graphs.
- `format`: uptime, terminal colors, panel titles and the snapshot's lines.
- `system`: what the machine reports, reduced to facts, disk choice and samples.

`app/` is the program around it: it reads the machine (sysinfo, WMI), the
configuration (toml), draws with ratatui and handles keys with crossterm.
