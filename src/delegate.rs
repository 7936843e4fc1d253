//! Handing titles to the external delegate program: reading the marker that a link carries,
//! and classifying why the program could not be started.
use vstd::prelude::*;
use crate::extract::{split_char, split_pieces};
use crate::text::{contains, starts_with, str_contains, str_starts_with};

verus! {

/// The name that a delegate marker carries: a link that starts with `DU_CLI` and splits at
/// spaces into exactly three words names its third word; any other link carries none.
pub open spec fn delegate_name(link: Seq<char>) -> Option<Seq<char>> {
    if starts_with(link, "DU_CLI"@) && split_char(link, ' ').len() == 3 {
        Some(split_char(link, ' ')[2])
    } else {
        None
    }
}

/// The name that a delegate marker carries, if `link` is one.
pub fn delegate_target(link: &str) -> (r: Option<String>)
    ensures
        r.deep_view() == delegate_name(link@),
{
    if !str_starts_with(link, "DU_CLI") {
        return None;
    }
    let words = split_pieces(link, ' ');
    if words.len() == 3 {
        let name = words[2].clone();
        assert(words.deep_view()[2] == words@[2]@);
        Some(name)
    } else {
        None
    }
}

/// Why the delegate program could not be run.
#[derive(Debug, Clone, Copy, PartialEq, Eq, Structural)]
pub enum DelegateFailure {
    /// The program is not next to this one.
    MissingExecutable,
    /// The program was built for another architecture, or is damaged.
    WrongArchitecture,
    /// Anything else.
    Unexpected,
}

/// Windows' text for an executable built for another machine.
pub open spec fn wrong_machine_text() -> Seq<char> {
    "Check your computer's system information and then contact the software publisher."@
}

/// The failure that an OS error stands for: by its raw code where it has one (101: not
/// found, 216: wrong architecture), else by its kind and message.
pub open spec fn delegate_failure(raw_os_error: Option<i32>, not_found: bool, message: Seq<char>) -> DelegateFailure {
    match raw_os_error {
        Some(code) => if code == 101 {
            DelegateFailure::MissingExecutable
        } else if code == 216 {
            DelegateFailure::WrongArchitecture
        } else {
            DelegateFailure::Unexpected
        },
        None => if not_found {
            DelegateFailure::MissingExecutable
        } else if contains(message, wrong_machine_text()) {
            DelegateFailure::WrongArchitecture
        } else {
            DelegateFailure::Unexpected
        },
    }
}

/// Classifies the error of starting the delegate from its raw OS code, whether its kind is
/// "not found", and its message.
pub fn classify_delegate_error(raw_os_error: Option<i32>, not_found: bool, message: &str) -> (r: DelegateFailure)
    ensures
        r == delegate_failure(raw_os_error, not_found, message@),
{
    match raw_os_error {
        Some(code) => if code == 101 {
            DelegateFailure::MissingExecutable
        } else if code == 216 {
            DelegateFailure::WrongArchitecture
        } else {
            DelegateFailure::Unexpected
        },
        None => if not_found {
            DelegateFailure::MissingExecutable
        } else if str_contains(
            message,
            "Check your computer's system information and then contact the software publisher.",
        ) {
            DelegateFailure::WrongArchitecture
        } else {
            DelegateFailure::Unexpected
        },
    }
}

} // verus!
