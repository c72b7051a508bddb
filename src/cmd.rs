use vstd::prelude::*;

verus! {

/// A line typed at the prompt, read as a command.
#[derive(Debug, Clone, PartialEq, Eq)]
pub enum Cmd {
    Quit,
    Chat(String),
    RefreshAll,
    RefreshConv,
    REfreshInst,
    RefreshFiles,
}

/// Whether `input` is exactly the text `word`.
fn is_word(input: &String, word: &str) -> (r: bool)
    ensures
        r == (input@ == word@),
{
    let w: String = word.to_owned();
    *input == w
}

impl Cmd {
    /// Reads a prompt line: the slash commands are recognised exactly as
    /// typed, anything else is a chat message holding the whole line.
    pub fn from_input(input: String) -> (r: Cmd)
        ensures
            input@ == "/q"@ ==> r is Quit,
            input@ != "/q"@ && (input@ == "/r"@ || input@ == "/ra"@) ==> r is RefreshAll,
            input@ != "/q"@ && input@ != "/r"@ && input@ != "/ra"@ && input@ == "/ri"@
                ==> r is REfreshInst,
            input@ != "/q"@ && input@ != "/r"@ && input@ != "/ra"@ && input@ != "/ri"@
                && input@ == "/rf"@ ==> r is RefreshFiles,
            input@ != "/q"@ && input@ != "/r"@ && input@ != "/ra"@ && input@ != "/ri"@
                && input@ != "/rf"@ && input@ == "/rc"@ ==> r is RefreshConv,
            input@ != "/q"@ && input@ != "/r"@ && input@ != "/ra"@ && input@ != "/ri"@
                && input@ != "/rf"@ && input@ != "/rc"@ ==> (r matches Cmd::Chat(s) && s@
                == input@),
    {
        if is_word(&input, "/q") {
            Cmd::Quit
        } else if is_word(&input, "/r") || is_word(&input, "/ra") {
            Cmd::RefreshAll
        } else if is_word(&input, "/ri") {
            Cmd::REfreshInst
        } else if is_word(&input, "/rf") {
            Cmd::RefreshFiles
        } else if is_word(&input, "/rc") {
            Cmd::RefreshConv
        } else {
            Cmd::Chat(input)
        }
    }
}

} // verus!
