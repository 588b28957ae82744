//! The text of the log records that this library words itself: the record of
//! the failure hook, and the label of a fault of the script.

use crate::script::{Fault, Operation};
use vstd::prelude::*;
use vstd::string::*;

verus! {

/// The decimal digit for `d`, which is below ten.
pub open spec fn digit(d: nat) -> char {
    if d == 0 {
        '0'
    } else if d == 1 {
        '1'
    } else if d == 2 {
        '2'
    } else if d == 3 {
        '3'
    } else if d == 4 {
        '4'
    } else if d == 5 {
        '5'
    } else if d == 6 {
        '6'
    } else if d == 7 {
        '7'
    } else if d == 8 {
        '8'
    } else {
        '9'
    }
}

/// `n` in decimal, without leading zeros.
pub open spec fn decimal(n: nat) -> Seq<char>
    decreases n,
{
    if n < 10 {
        seq![digit(n)]
    } else {
        decimal(n / 10).push(digit(n % 10))
    }
}

/// The text of an optional string.
pub open spec fn text_of(text: Option<&str>) -> Option<Seq<char>> {
    match text {
        Some(text) => Some(text@),
        None => None,
    }
}

/// The cause that the record names: the owned message of the panic where it
/// has one, else the borrowed one, else a stand-in.
pub open spec fn cause_text(owned: Option<Seq<char>>, borrowed: Option<Seq<char>>) -> Seq<char> {
    match owned {
        Some(text) => text,
        None => match borrowed {
            Some(text) => text,
            None => "<cause unknown>"@,
        },
    }
}

/// The record of a panic at `location`, a file and a line, with the given
/// messages. A panic without a location is put at line 0 of `<unknown>`.
pub open spec fn panic_text(
    location: Option<(Seq<char>, u32)>,
    owned: Option<Seq<char>>,
    borrowed: Option<Seq<char>>,
) -> Seq<char> {
    let file = match location {
        Some((file, _)) => file,
        None => "<unknown>"@,
    };
    let line = match location {
        Some((_, line)) => line as nat,
        None => 0nat,
    };
    "A panic occurred at "@ + file + ":"@ + decimal(line) + ": "@ + cause_text(owned, borrowed)
}

fn digit_text(d: u32) -> (text: &'static str)
    requires
        d < 10,
    ensures
        text@ == seq![digit(d as nat)],
{
    proof {
        reveal_strlit("0");
        reveal_strlit("1");
        reveal_strlit("2");
        reveal_strlit("3");
        reveal_strlit("4");
        reveal_strlit("5");
        reveal_strlit("6");
        reveal_strlit("7");
        reveal_strlit("8");
        reveal_strlit("9");
    }
    if d == 0 {
        "0"
    } else if d == 1 {
        "1"
    } else if d == 2 {
        "2"
    } else if d == 3 {
        "3"
    } else if d == 4 {
        "4"
    } else if d == 5 {
        "5"
    } else if d == 6 {
        "6"
    } else if d == 7 {
        "7"
    } else if d == 8 {
        "8"
    } else {
        "9"
    }
}

/// `n` in decimal, without leading zeros.
pub fn decimal_text(n: u32) -> (text: String)
    ensures
        text@ == decimal(n as nat),
    decreases n,
{
    if n < 10 {
        String::from_str(digit_text(n))
    } else {
        let mut text = decimal_text(n / 10);
        text.append(digit_text(n % 10));
        text
    }
}

/// The log record of the failure hook for a panic at `location`, a file and a
/// line, whose message is `owned` where the panic carries an owned string and
/// `borrowed` where it carries a borrowed one.
pub fn panic_message(location: Option<(&str, u32)>, owned: Option<&str>, borrowed: Option<&str>) -> (message: String)
    ensures
        message@ == panic_text(
            match location {
                Some((file, line)) => Some((file@, line)),
                None => None,
            },
            text_of(owned),
            text_of(borrowed),
        ),
{
    let (file, line) = match location {
        Some((file, line)) => (file, line),
        None => ("<unknown>", 0u32),
    };
    let cause = match owned {
        Some(text) => text,
        None => match borrowed {
            Some(text) => text,
            None => "<cause unknown>",
        },
    };
    let mut message = String::from_str("A panic occurred at ");
    message.append(file);
    message.append(":");
    let number = decimal_text(line);
    message.append(number.as_str());
    message.append(": ");
    message.append(cause);
    message
}

impl Fault {
    /// The words that stand before the collaborator's own error in the record
    /// of a fault, where the fault has such words.
    pub open spec fn label_text(self) -> Option<Seq<char>> {
        match self {
            Fault::NoRuntime => Some("Couldn't get JVM!"@),
            Fault::Failed(Operation::AttachThread) => Some("Couldn't attach thread!"@),
            Fault::Failed(Operation::DecodeUri) => Some("Couldn't get java string!"@),
            Fault::Failed(Operation::CreateDirectory) => Some("Couldn't create dir!"@),
            Fault::Failed(Operation::Write) => Some("Couldn't write to file!"@),
            Fault::Failed(Operation::ReadAll) => Some("Couldn't read file!"@),
            Fault::Failed(Operation::ListCreated) => Some("Couldn't list files!"@),
            Fault::Failed(Operation::Remove) => Some("Couldn't remove file!"@),
            _ => None,
        }
    }

    /// The words that stand before the collaborator's own error in the record
    /// of this fault, where it has such words.
    pub fn label(self) -> (text: Option<&'static str>)
        ensures
            text_of(text) == self.label_text(),
    {
        match self {
            Fault::NoRuntime => Some("Couldn't get JVM!"),
            Fault::Failed(Operation::AttachThread) => Some("Couldn't attach thread!"),
            Fault::Failed(Operation::DecodeUri) => Some("Couldn't get java string!"),
            Fault::Failed(Operation::CreateDirectory) => Some("Couldn't create dir!"),
            Fault::Failed(Operation::Write) => Some("Couldn't write to file!"),
            Fault::Failed(Operation::ReadAll) => Some("Couldn't read file!"),
            Fault::Failed(Operation::ListCreated) => Some("Couldn't list files!"),
            Fault::Failed(Operation::Remove) => Some("Couldn't remove file!"),
            _ => None,
        }
    }
}

} // verus!
