//! The command words the program accepts.
use vstd::prelude::*;
use crate::text::same_text;

verus! {

/// A command word.
#[allow(non_camel_case_types)]
#[derive(Debug, Clone, Copy, PartialEq, Eq, Structural)]
pub enum ValidStarterArg {
    DOWNLOAD,
    HELP,
    INSTALL,
    VERSION,
}

/// The word of a command.
pub open spec fn arg_word(arg: ValidStarterArg) -> Seq<char> {
    match arg {
        ValidStarterArg::DOWNLOAD => "download"@,
        ValidStarterArg::HELP => "help"@,
        ValidStarterArg::INSTALL => "install"@,
        ValidStarterArg::VERSION => "version"@,
    }
}

/// The command that a word names; any other word means help.
pub open spec fn arg_of_word(word: Seq<char>) -> ValidStarterArg {
    if word == "download"@ {
        ValidStarterArg::DOWNLOAD
    } else if word == "help"@ {
        ValidStarterArg::HELP
    } else if word == "install"@ {
        ValidStarterArg::INSTALL
    } else if word == "version"@ {
        ValidStarterArg::VERSION
    } else {
        ValidStarterArg::HELP
    }
}

/// The word of a command.
pub fn map_enum_to_arg_str(arg: ValidStarterArg) -> (r: String)
    ensures
        r@ == arg_word(arg),
{
    match arg {
        ValidStarterArg::DOWNLOAD => "download".to_owned(),
        ValidStarterArg::HELP => "help".to_owned(),
        ValidStarterArg::INSTALL => "install".to_owned(),
        ValidStarterArg::VERSION => "version".to_owned(),
    }
}

/// The command that `arg` names, help for an unknown word.
pub fn map_arg_str_to_enum(arg: String) -> (r: ValidStarterArg)
    ensures
        r == arg_of_word(arg@),
{
    let a = arg.as_str();
    if same_text(a, "download") {
        ValidStarterArg::DOWNLOAD
    } else if same_text(a, "help") {
        ValidStarterArg::HELP
    } else if same_text(a, "install") {
        ValidStarterArg::INSTALL
    } else if same_text(a, "version") {
        ValidStarterArg::VERSION
    } else {
        ValidStarterArg::HELP
    }
}

/// The accepted words, in order.
pub open spec fn starter_words() -> Seq<Seq<char>> {
    seq!["download"@, "help"@, "install"@, "version"@]
}

/// The accepted command words.
pub fn create_starter_args() -> (r: Vec<String>)
    ensures
        r.deep_view() == starter_words(),
{
    let r = vec![
        "download".to_owned(),
        "help".to_owned(),
        "install".to_owned(),
        "version".to_owned(),
    ];
    assert(r.deep_view() =~= starter_words());
    r
}

/// Whether `starter_arg` is one of `starter_args`; where it is not, it is replaced by `help`.
pub fn is_valid_starter_arg(starter_args: Vec<String>, starter_arg: &mut String) -> (r: bool)
    ensures
        r == starter_args.deep_view().contains(old(starter_arg)@),
        r ==> *final(starter_arg) == *old(starter_arg),
        !r ==> final(starter_arg)@ == "help"@,
{
    let mut i: usize = 0;
    while i < starter_args.len()
        invariant
            i <= starter_args@.len(),
            forall|j: int| 0 <= j < i ==> starter_args.deep_view()[j] != starter_arg@,
        decreases starter_args@.len() - i,
    {
        if same_text(starter_args[i].as_str(), starter_arg.as_str()) {
            assert(starter_args.deep_view()[i as int] == starter_arg@);
            return true;
        }
        i = i + 1;
    }
    *starter_arg = "help".to_owned();
    false
}

} // verus!
