use vstd::prelude::*;

verus! {

/// The words a POSIX-shell-style splitter yields for the given command
/// line, or `None` when the line is erroneous (an unclosed quote or a
/// dangling escape).
pub uninterp spec fn shell_words(s: Seq<char>) -> Option<Seq<Seq<char>>>;

/// An optional word list seen as the mathematical value `shell_words` yields.
pub open spec fn words_view(r: Option<Vec<String>>) -> Option<Seq<Seq<char>>> {
    match r {
        Some(ws) => Some(ws@.map(|i: int, w: String| w@)),
        None => None,
    }
}

/// A parsed command seen the same way: the executable followed by its
/// arguments.
pub open spec fn parsed_view(r: Option<(String, Vec<String>)>) -> Option<Seq<Seq<char>>> {
    match r {
        Some(pa) => Some(seq![pa.0@] + pa.1@.map(|i: int, w: String| w@)),
        None => None,
    }
}

/// Relies on shlex::split: splits a command line into its shell words,
/// `None` on erroneous input; the result depends on the input characters
/// alone.
#[verifier::external_body]
fn split_command(command: &str) -> (r: Option<Vec<String>>)
    ensures
        words_view(r) == shell_words(command@),
{
    shlex::split(command)
}

/// Parse a configured server command line into the executable and its
/// arguments.
///
/// `None` when the line cannot be split or holds no word at all: an
/// invalid command is a configuration error, not a runtime retry case.
pub fn parse_command(command: &str) -> (r: Option<(String, Vec<String>)>)
    ensures
        match shell_words(command@) {
            Some(ws) => if ws.len() > 0 {
                parsed_view(r) == Some(ws)
            } else {
                r is None
            },
            None => r is None,
        },
{
    match split_command(command) {
        Some(mut words) => {
            if words.len() == 0 {
                None
            } else {
                let program = words.remove(0);
                proof {
                    let ws = shell_words(command@)->Some_0;
                    assert(seq![program@] + words@.map(|i: int, w: String| w@) =~= ws);
                }
                Some((program, words))
            }
        },
        None => None,
    }
}

} // verus!
