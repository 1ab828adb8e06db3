use vstd::prelude::*;

verus! {

/// The escape sequence that ends a colour.
pub open spec fn reset() -> Seq<char> {
    "\x1b[0m"@
}

/// `input` between the escape sequence `start` and the one that ends a
/// colour.
fn painted(start: &str, input: &str) -> (text: String)
    ensures
        text@ == start@ + input@ + reset(),
{
    let mut text = String::from_str(start);
    text.append(input);
    text.append("\x1b[0m");
    text
}

/// `input` as a terminal shows it in red.
pub fn red_text(input: &str) -> (text: String)
    ensures
        text@ == "\x1b[31m"@ + input@ + reset(),
{
    painted("\x1b[31m", input)
}

/// `input` as a terminal shows it in yellow.
pub fn yellow_text(input: &str) -> (text: String)
    ensures
        text@ == "\x1b[33m"@ + input@ + reset(),
{
    painted("\x1b[33m", input)
}

/// `input` as a terminal shows it in cyan.
pub fn cyan_text(input: &str) -> (text: String)
    ensures
        text@ == "\x1b[36m"@ + input@ + reset(),
{
    painted("\x1b[36m", input)
}

/// `input` as a terminal of 256 colours shows it in orange.
pub fn orange_text(input: &str) -> (text: String)
    ensures
        text@ == "\x1b[38;5;214m"@ + input@ + reset(),
{
    painted("\x1b[38;5;214m", input)
}

/// `input` as a terminal shows it in gray.
pub fn gray_text(input: &str) -> (text: String)
    ensures
        text@ == "\x1b[90m"@ + input@ + reset(),
{
    painted("\x1b[90m", input)
}

} // verus!
