use vstd::prelude::*;

verus! {

/// Command-line flag: stop the running copy and exit, doing nothing if none
/// is running. Never starts the app.
pub const QUIT_FLAG: &'static str = "--quit";

/// Command-line flag: everything `--quit` does, and then switch the display
/// off, whether or not a copy was running. Never starts the app.
pub const MONITOR_OFF_FLAG: &'static str = "--monitor-off";

/// Whether `flag` is one of the arguments after the program name
/// (`args[0]`).
pub open spec fn is_requested(args: Seq<Seq<char>>, flag: Seq<char>) -> bool {
    exists|i: int| 1 <= i < args.len() && args[i] == flag
}

/// The arguments as character sequences.
pub open spec fn args_view(args: Seq<String>) -> Seq<Seq<char>> {
    args.map_values(|a: String| a@)
}

/// What a launch was asked to do by its command line.
#[derive(Clone, Copy, Debug, PartialEq, Eq, Structural)]
pub struct LaunchRequest {
    /// `--quit` was given.
    pub quit: bool,
    /// `--monitor-off` was given.
    pub monitor_off: bool,
}

/// Whether `flag` occurs among the arguments, the program name excluded.
pub fn requested(args: &Vec<String>, flag: &str) -> (found: bool)
    ensures
        found == is_requested(args_view(args@), flag@),
{
    let wanted: String = flag.to_owned();
    let mut i: usize = 1;
    while i < args.len()
        invariant
            wanted@ == flag@,
            1 <= i,
            i <= args.len() || args.len() == 0,
            forall|j: int| 1 <= j < i && j < args.len() ==> args@[j]@ != flag@,
        decreases args.len() - i,
    {
        if args[i] == wanted {
            assert(args_view(args@)[i as int] == flag@);
            return true;
        }
        i = i + 1;
    }
    assert forall|j: int| 1 <= j < args_view(args@).len() implies args_view(args@)[j] != flag@ by {
        assert(args_view(args@)[j] == args@[j]@);
    }
    false
}

/// Reads the two flags from the full argument list (program name first).
pub fn parse_launch_request(args: &Vec<String>) -> (req: LaunchRequest)
    ensures
        req.quit == is_requested(args_view(args@), QUIT_FLAG@),
        req.monitor_off == is_requested(args_view(args@), MONITOR_OFF_FLAG@),
{
    let quit = requested(args, QUIT_FLAG);
    let monitor_off = requested(args, MONITOR_OFF_FLAG);
    LaunchRequest { quit, monitor_off }
}

} // verus!
