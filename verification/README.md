# fazuh_common

Common building blocks for logging set-up and percentage parsing.

- `src/` is the verified library:
  - `log`: severity levels and `Verbosity` (flag counts map to levels), the
    `LogConfig` / `FileAppenderConfig` builders, and `plan_logging`, which
    decides the filter directive, colour use and file appender from a
    configuration and the value of `RUST_LOG`;
  - `log::cli`: `ColorMode` and `resolve_ansi`, the colour decision from the
    mode, the terminal, `NO_COLOR` and `CLICOLOR`;
  - `types`: `split_percent_suffix`, the text side of percentage parsing.
- `app/` holds what touches the environment: `install_logging` (tracing
  subscriber and rolling file appender), `get_ansi` (environment and terminal
  reads), the clap-facing `ColorMode`, and the floating-point `Percent` type.
