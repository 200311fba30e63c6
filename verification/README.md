# slow-rs

A Linux monitor for diagnosing slow machines. The library in `src/` holds the
tool's decisions, each verified with Verus against its contract; `app/` is the
command-line program around it, which probes the system and runs `smartctl`.

## Layout

- `src/thresholds.rs` – severity levels and the thresholds that classify metrics.
- `src/temperature.rs` – the plausible range of sensor temperatures.
- `src/availability.rs` – which metric sources are usable, and the warnings shown
  for the missing ones.
- `src/smart/` – reading `smartctl` output: JSON (`json.rs`), attribute tables
  (`table.rs`), and the sequence of `smartctl` runs used for one disk
  (`device_read.rs`); the module root aggregates per-disk results.
- `src/recommendations.rs` – actionable advice from a metrics sample and from
  the history of samples, most urgent first.
- `src/cli.rs` – removal of the `slow` token that `cargo slow` injects.
- `src/text.rs` – scanning decoded text: search, words, lines, decimal numbers
  and their display.
- `app/main.rs` – argument parsing, probing, process execution, signals.

## Units

Fractional quantities are fixed-point integers: percentages in hundredths of a
percent, temperatures in thousandths of a degree Celsius, uptimes in hundredths
of a second. Decimal numbers found in tool output are read exactly to the
thousandth; digits beyond that only matter at the bounds of the plausible
temperature range. Whole-number displays round halves to even, as `{:.0}` does.
