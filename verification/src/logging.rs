//! How much the program says, as the command line asks for it.

use vstd::prelude::*;
use vstd::string::*;
use crate::cli::{flag_present, is_flag_present};
use crate::text::{chars_of, same_text, texts};

verus! {

/// How often a character stands in a piece of text.
pub open spec fn count_of(s: Seq<char>, c: char) -> nat
    decreases s.len(),
{
    if s.len() == 0 {
        0
    } else {
        count_of(s.drop_last(), c) + if s.last() == c {
            1nat
        } else {
            0nat
        }
    }
}

/// What one token adds to the verbosity: `--verbose` adds one, and a token
/// that opens with `-v` adds one for each `v` in it.
pub open spec fn token_verbosity(token: Seq<char>) -> nat {
    if token == "--verbose"@ {
        1
    } else if token.len() >= 2 && token[0] == '-' && token[1] == 'v' {
        count_of(token, 'v')
    } else {
        0
    }
}

/// The verbosity that a list of tokens asks for.
pub open spec fn verbosity_of(args: Seq<Seq<char>>) -> nat
    decreases args.len(),
{
    if args.len() == 0 {
        0
    } else {
        verbosity_of(args.drop_last()) + token_verbosity(args.last())
    }
}

/// A count, as far as the machine can hold it.
pub open spec fn capped(n: nat) -> usize {
    if n <= usize::MAX {
        n as usize
    } else {
        usize::MAX
    }
}

/// How the log is set up.
#[derive(Debug, Copy, Clone, PartialEq, Eq, Structural)]
pub struct LogSetup {
    /// Whether nothing is logged at all.
    pub quiet: bool,
    /// The level up to which messages are logged: warnings are at 1.
    pub verbosity: usize,
    /// Whether each message shows its level.
    pub show_level: bool,
}

fn count_in(cs: &Vec<char>, c: char) -> (r: usize)
    ensures
        r == count_of(cs@, c),
{
    let mut n: usize = 0;
    let mut i: usize = 0;
    assert(cs@.subrange(0, 0) =~= Seq::empty());
    while i < cs.len()
        invariant
            i <= cs.len(),
            n <= i,
            n == count_of(cs@.subrange(0, i as int), c),
        decreases cs.len() - i,
    {
        assert(cs@.subrange(0, i + 1).drop_last() =~= cs@.subrange(0, i as int));
        if cs[i] == c {
            n += 1;
        }
        i += 1;
    }
    assert(cs@.subrange(0, cs@.len() as int) =~= cs@);
    n
}

fn verbosity_in(token: &str) -> (r: usize)
    ensures
        r == token_verbosity(token@),
{
    if same_text(token, "--verbose") {
        return 1;
    }
    let cs = chars_of(token);
    if cs.len() >= 2 && cs[0] == '-' && cs[1] == 'v' {
        count_in(&cs, 'v')
    } else {
        0
    }
}

/// Gets the total requested verbosity, as far as the machine can hold it.
pub fn verbosity(args: &Vec<String>) -> (r: usize)
    ensures
        r == capped(verbosity_of(texts(args@))),
{
    let mut total: usize = 0;
    let mut i: usize = 0;
    assert(texts(args@).subrange(0, 0) =~= Seq::empty());
    while i < args.len()
        invariant
            i <= args.len(),
            total == capped(verbosity_of(texts(args@).subrange(0, i as int))),
        decreases args.len() - i,
    {
        let ghost next = texts(args@).subrange(0, i + 1);
        assert(next.drop_last() =~= texts(args@).subrange(0, i as int));
        assert(next.last() == args@[i as int]@);
        let more = verbosity_in(args[i].as_str());
        total = if usize::MAX - total < more {
            usize::MAX
        } else {
            total + more
        };
        i += 1;
    }
    assert(texts(args@).subrange(0, args@.len() as int) =~= texts(args@));
    total
}

/// The names of the switch that silences the log.
pub open spec fn quiet_names() -> Seq<Seq<char>> {
    seq!["-q"@, "--quiet"@]
}

/// Check for quiet flag.
pub fn is_quiet(args: &Vec<String>) -> (r: bool)
    ensures
        r == flag_present(texts(args@), quiet_names()),
{
    let names = ["-q", "--quiet"];
    assert(crate::cli::names_of(names@) =~= quiet_names());
    is_flag_present(args, &names)
}

/// How the log is to be set up for a command line: warnings are always
/// logged, each step of verbosity lets one more level through, and the level
/// is shown as soon as any verbosity is asked for.
pub fn log_setup(args: &Vec<String>) -> (r: LogSetup)
    ensures
        r.quiet == flag_present(texts(args@), quiet_names()),
        r.verbosity == capped(verbosity_of(texts(args@)) + 2),
        r.show_level == (verbosity_of(texts(args@)) > 0),
{
    let asked = verbosity(args);
    LogSetup {
        quiet: is_quiet(args),
        verbosity: if asked > usize::MAX - 2 {
            usize::MAX
        } else {
            asked + 2
        },
        show_level: asked > 0,
    }
}

} // verus!
