use slow_rs::cli::{run_mode, strip_cargo_subcommand};

fn osvec(args: &[&str]) -> Vec<Vec<u8>> {
    args.iter().map(|a| a.as_bytes().to_vec()).collect()
}

#[test]
fn strips_injected_slow_subcommand_token() {
    assert_eq!(
        strip_cargo_subcommand(osvec(&["cargo-slow", "slow", "--headless"])),
        osvec(&["cargo-slow", "--headless"])
    );
}

#[test]
fn leaves_direct_binary_invocation_untouched() {
    assert_eq!(
        strip_cargo_subcommand(osvec(&["cargo-slow", "--headless"])),
        osvec(&["cargo-slow", "--headless"])
    );
}

#[test]
fn only_strips_the_first_slow_token() {
    assert_eq!(
        strip_cargo_subcommand(osvec(&["cargo-slow", "slow", "-c", "slow"])),
        osvec(&["cargo-slow", "-c", "slow"])
    );
}

#[test]
fn slow_as_program_name_or_alone_is_kept() {
    assert_eq!(strip_cargo_subcommand(osvec(&["slow"])), osvec(&["slow"]));
    assert_eq!(strip_cargo_subcommand(osvec(&[])), osvec(&[]));
    assert_eq!(
        strip_cargo_subcommand(osvec(&["cargo-slow", "slowly"])),
        osvec(&["cargo-slow", "slowly"])
    );
}

#[test]
fn headless_is_forced_without_a_terminal() {
    let forced = run_mode(false, false);
    assert!(forced.headless && forced.warn_not_terminal);
    let asked = run_mode(true, false);
    assert!(asked.headless && !asked.warn_not_terminal);
    let tui = run_mode(false, true);
    assert!(!tui.headless && !tui.warn_not_terminal);
}
