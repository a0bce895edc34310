use vstd::prelude::*;

verus! {

/// What one line typed at the interactive prompt asks for.
#[derive(Clone, Copy, Debug, PartialEq, Eq)]
pub enum Command {
    /// `help`: list the commands.
    Help,
    /// `test`: probe the connection.
    Test,
    /// `customers`: list customers.
    Customers,
    /// `quit` or `exit`: leave the prompt.
    Quit,
    /// A blank line: prompt again.
    Blank,
    /// Anything else: warn and prompt again.
    Unknown,
}

/// The line with leading and trailing whitespace removed.
pub uninterp spec fn trimmed(s: Seq<char>) -> Seq<char>;

/// Relies on `str::trim`: it removes leading and trailing Unicode
/// whitespace, so the result depends on the text alone.
#[verifier::external_body]
fn trim_line(s: &str) -> (r: &str)
    ensures
        r@ == trimmed(s@),
{
    s.trim()
}

/// The command that an already trimmed line names.
pub open spec fn command_of(t: Seq<char>) -> Command {
    if t == "help"@ {
        Command::Help
    } else if t == "test"@ {
        Command::Test
    } else if t == "customers"@ {
        Command::Customers
    } else if t == "quit"@ || t == "exit"@ {
        Command::Quit
    } else if t.len() == 0 {
        Command::Blank
    } else {
        Command::Unknown
    }
}

impl Command {
    /// The command named by a line from which whitespace was already trimmed.
    pub fn from_trimmed(t: &str) -> (r: Command)
        ensures
            r == command_of(t@),
    {
        let s = String::from_str(t);
        if s == String::from_str("help") {
            Command::Help
        } else if s == String::from_str("test") {
            Command::Test
        } else if s == String::from_str("customers") {
            Command::Customers
        } else if s == String::from_str("quit") || s == String::from_str("exit") {
            Command::Quit
        } else if t.is_empty() {
            Command::Blank
        } else {
            Command::Unknown
        }
    }

    /// The command named by a line read at the prompt.
    pub fn parse(line: &str) -> (r: Command)
        ensures
            r == command_of(trimmed(line@)),
    {
        Command::from_trimmed(trim_line(line))
    }

}

} // verus!
