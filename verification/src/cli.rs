//! Reading the argument list: which of the tool's three behaviours an
//! invocation asks for.

use vstd::prelude::*;
use vstd::string::StrSliceExecFns;

verus! {

/// What an invocation asks for.
#[derive(Clone, Copy, Debug, PartialEq, Eq, Structural)]
pub enum Mode {
    /// No arguments at all: show the banner.
    Banner,
    /// Some argument is a help flag: show the usage text.
    Usage,
    /// Every argument is a path to touch.
    Touch,
}

/// An argument is a help flag when it is exactly `-h` or exactly `-?`.
pub open spec fn help_flag(arg: Seq<char>) -> bool {
    arg == seq!['-', 'h'] || arg == seq!['-', '?']
}

/// Some argument, at any position, is a help flag.
pub open spec fn asks_for_help(args: Seq<Seq<char>>) -> bool {
    exists|i: int| 0 <= i < args.len() && help_flag(#[trigger] args[i])
}

/// The mode of an argument list. An empty list wins over everything; a help
/// flag anywhere wins over touching.
pub open spec fn mode_of(args: Seq<Seq<char>>) -> Mode {
    if args.len() == 0 {
        Mode::Banner
    } else if asks_for_help(args) {
        Mode::Usage
    } else {
        Mode::Touch
    }
}

/// Tells whether `arg` is one of the two help flags.
pub fn is_help_flag(arg: &str) -> (b: bool)
    ensures
        b == help_flag(arg@),
{
    if arg.unicode_len() != 2 {
        return false;
    }
    let dash = arg.get_char(0);
    let letter = arg.get_char(1);
    let b = dash == '-' && (letter == 'h' || letter == '?');
    assert(b ==> arg@ =~= seq!['-', letter]);
    b
}

/// Decides what the invocation `args` (program name excluded) asks for.
pub fn classify(args: &Vec<String>) -> (mode: Mode)
    ensures
        mode == mode_of(args.deep_view()),
{
    if args.len() == 0 {
        return Mode::Banner;
    }
    let mut i: usize = 0;
    while i < args.len()
        invariant
            i <= args.len(),
            forall|j: int| 0 <= j < i ==> !help_flag(#[trigger] args.deep_view()[j]),
        decreases args.len() - i,
    {
        if is_help_flag(args[i].as_str()) {
            assert(help_flag(args.deep_view()[i as int]));
            return Mode::Usage;
        }
        i += 1;
    }
    Mode::Touch
}

} // verus!
