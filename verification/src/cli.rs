//! Command-line handling that does not depend on how arguments are parsed.

use vstd::prelude::*;

verus! {

/// The bytes of `slow`, the subcommand name that `cargo slow` passes on.
pub open spec fn slow_token() -> Seq<u8> {
    seq![115u8, 108u8, 111u8, 119u8]
}

/// Drop the `slow` token that cargo injects ahead of the real arguments.
///
/// When run as `cargo slow ...`, cargo invokes the binary as
/// `cargo-slow slow ...`. The tool takes no positional arguments, so a
/// `slow` right after the program name can only be that subcommand name,
/// never user input; any later `slow` is kept. Arguments are given as the
/// bytes of the operating system's strings.
pub fn strip_cargo_subcommand(args: Vec<Vec<u8>>) -> (r: Vec<Vec<u8>>)
    ensures
        r@ == (if args@.len() > 1 && args@[1]@ == slow_token() {
            args@.remove(1)
        } else {
            args@
        }),
{
    let mut args = args;
    if args.len() > 1 {
        let is_slow = {
            let a = &args[1];
            a.len() == 4 && a[0] == 115u8 && a[1] == 108u8 && a[2] == 111u8 && a[3] == 119u8
        };
        assert(is_slow ==> args@[1]@ =~= slow_token());
        if is_slow {
            args.remove(1);
        }
    }
    args
}


/// How the tool presents its results.
#[derive(Clone, Copy, PartialEq, Eq, Debug, Structural)]
pub struct RunMode {
    /// Run without the terminal UI.
    pub headless: bool,
    /// Tell the user that headless mode was forced because standard output
    /// is not a terminal.
    pub warn_not_terminal: bool,
}

/// The run mode: headless when asked for or when standard output is not a
/// terminal, with a warning in the second case only.
pub fn run_mode(headless_requested: bool, stdout_is_terminal: bool) -> (m: RunMode)
    ensures
        m.headless == (headless_requested || !stdout_is_terminal),
        m.warn_not_terminal == (!headless_requested && !stdout_is_terminal),
{
    RunMode {
        headless: headless_requested || !stdout_is_terminal,
        warn_not_terminal: !headless_requested && !stdout_is_terminal,
    }
}

} // verus!
