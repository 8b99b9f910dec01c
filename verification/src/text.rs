//! The wording of every line the tool prints.

use vstd::prelude::*;

verus! {

/// The line that announces a junction and where it leads.
pub open spec fn report_text(path: Seq<char>, target: Seq<char>) -> Seq<char> {
    "JUNCTION: "@ + path + " -> "@ + target
}

/// The diagnostic for a path whose junction status could not be determined.
pub open spec fn junction_test_text(path: Seq<char>, cause: Seq<char>) -> Seq<char> {
    "Could not access path `"@ + path + "` to check if junction: "@ + cause
}

/// The diagnostic for a junction whose target could not be read.
pub open spec fn target_lookup_text(path: Seq<char>, cause: Seq<char>) -> Seq<char> {
    "cannot access `"@ + path + "`: "@ + cause
}

/// The error for a single path that turned out to be no junction.
pub open spec fn not_a_junction_text(path: Seq<char>) -> Seq<char> {
    "path `"@ + path + "` is not a junction"@
}

/// The error for a junction that could not be created.
pub open spec fn create_failed_text(path: Seq<char>, cause: Seq<char>) -> Seq<char> {
    "failed to create junction `"@ + path + "`: "@ + cause
}

/// The error for a junction whose reparse point could not be removed.
pub open spec fn remove_failed_text(path: Seq<char>, cause: Seq<char>) -> Seq<char> {
    "failed to remove junction `"@ + path + "`: "@ + cause
}

/// The error for a removed junction whose directory shell stayed behind.
pub open spec fn shell_left_text(path: Seq<char>, cause: Seq<char>) -> Seq<char> {
    "failed to delete empty directory `"@ + path + "` after removing junction: "@ + cause
}

/// The error for `-d` with a number of paths other than one.
pub open spec fn delete_arity_text(count: nat) -> Seq<char> {
    "expected exactly 1 path to junction to delete, got "@ + decimal_text(count)
}

/// The error for a listing with more than one path.
pub open spec fn list_arity_text(count: nat) -> Seq<char> {
    "expected exactly 1 path to display junction information, got "@ + decimal_text(count)
}

/// The error for a creation with more than two paths.
pub open spec fn create_arity_text(count: nat) -> Seq<char> {
    "expected exactly 2 paths to create junction, got "@ + decimal_text(count)
}

/// The error for listing flags given together with two paths.
pub open spec fn stray_flags_text() -> Seq<char> {
    "q and s are for a different subcommand"@
}

/// The character of a decimal digit.
pub open spec fn digit_char(digit: nat) -> char
    recommends
        digit < 10,
{
    if digit == 0 {
        '0'
    } else if digit == 1 {
        '1'
    } else if digit == 2 {
        '2'
    } else if digit == 3 {
        '3'
    } else if digit == 4 {
        '4'
    } else if digit == 5 {
        '5'
    } else if digit == 6 {
        '6'
    } else if digit == 7 {
        '7'
    } else if digit == 8 {
        '8'
    } else {
        '9'
    }
}

/// A number written in decimal, without leading zeros.
pub open spec fn decimal_text(n: nat) -> Seq<char>
    decreases n,
{
    if n < 10 {
        seq![digit_char(n)]
    } else {
        decimal_text(n / 10).push(digit_char(n % 10))
    }
}

/// The four pieces one after the other.
pub(crate) fn join4(first: &str, second: &str, third: &str, fourth: &str) -> (joined: String)
    ensures
        joined@ == first@ + second@ + third@ + fourth@,
{
    String::from_str(first).concat(second).concat(third).concat(fourth)
}

/// The one-character string of a decimal digit.
fn digit_str(digit: usize) -> (text: &'static str)
    requires
        digit < 10,
    ensures
        text@ == seq![digit_char(digit as nat)],
{
    proof {
        reveal_strlit("0");
        reveal_strlit("1");
        reveal_strlit("2");
        reveal_strlit("3");
        reveal_strlit("4");
        reveal_strlit("5");
        reveal_strlit("6");
        reveal_strlit("7");
        reveal_strlit("8");
        reveal_strlit("9");
    }
    let text = if digit == 0 {
        "0"
    } else if digit == 1 {
        "1"
    } else if digit == 2 {
        "2"
    } else if digit == 3 {
        "3"
    } else if digit == 4 {
        "4"
    } else if digit == 5 {
        "5"
    } else if digit == 6 {
        "6"
    } else if digit == 7 {
        "7"
    } else if digit == 8 {
        "8"
    } else {
        "9"
    };
    assert(text@ =~= seq![digit_char(digit as nat)]);
    text
}

/// Writes a number in decimal.
pub fn decimal(n: usize) -> (text: String)
    ensures
        text@ == decimal_text(n as nat),
    decreases n,
{
    if n < 10 {
        String::from_str(digit_str(n))
    } else {
        let head = decimal(n / 10);
        let last = digit_str(n % 10);
        let text = head.concat(last);
        assert(text@ =~= decimal_text(n as nat));
        text
    }
}

} // verus!
