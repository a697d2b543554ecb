//! The typed command line: a quote- and escape-aware tokenizer and the
//! table that maps a command name to a command.
use vstd::prelude::*;
use vstd::string::*;
use crate::text::{is_blank, is_blank_str, is_single, is_white, is_white_space, push_char};

verus! {

#[derive(Debug, Clone, Copy, PartialEq, Eq, Structural)]
pub enum Command {
    ModeToUartChoice,
    ModeToRateChoice,
    Open,
    Quit,
}

/// A command line split into its name and the arguments after it.
#[derive(Debug)]
pub struct ParsedCommand {
    pub name: String,
    pub args: Vec<String>,
}

/// The tokenizer's state after reading `s` up to index `i`, from the tokens
/// finished so far, the token being built and whether a quote is open.
pub open spec fn scan(s: Seq<char>, i: int, toks: Seq<Seq<char>>, cur: Seq<char>, quoted: bool) -> (
    Seq<Seq<char>>,
    Seq<char>,
    bool,
)
    decreases s.len() - i,
{
    if i < 0 || i >= s.len() {
        (toks, cur, quoted)
    } else {
        let c = s[i];
        if c == '"' {
            scan(s, i + 1, toks, cur, !quoted)
        } else if is_white_space(c) && !quoted {
            if cur.len() > 0 {
                scan(s, i + 1, toks.push(cur), seq![], quoted)
            } else {
                scan(s, i + 1, toks, cur, quoted)
            }
        } else if c == '\\' && i + 1 < s.len() && (s[i + 1] == '"' || s[i + 1] == '\\') {
            scan(s, i + 2, toks, cur.push(s[i + 1]), quoted)
        } else {
            scan(s, i + 1, toks, cur.push(c), quoted)
        }
    }
}

/// Whether the text ends inside a quoted region.
pub open spec fn unclosed_quote(s: Seq<char>) -> bool {
    scan(s, 0, seq![], seq![], false).2
}

/// The tokens of the text: runs split at white space outside quotes, with
/// quotes dropped and `\"`, `\\` read as the escaped character.
pub open spec fn tokens_of(s: Seq<char>) -> Seq<Seq<char>> {
    let (toks, cur, _) = scan(s, 0, seq![], seq![], false);
    if cur.len() > 0 {
        toks.push(cur)
    } else {
        toks
    }
}

pub open spec fn views(v: Seq<String>) -> Seq<Seq<char>> {
    v.map_values(|t: String| t@)
}

/// The command a name stands for, if any.
pub open spec fn command_of(name: Seq<char>) -> Option<Command> {
    if name == seq!['c'] {
        Some(Command::ModeToUartChoice)
    } else if name == seq!['q'] {
        Some(Command::Quit)
    } else if name == seq!['r'] {
        Some(Command::ModeToRateChoice)
    } else if name == seq!['o'] {
        Some(Command::Open)
    } else {
        None
    }
}

/// The command for a name, or the message that names it as unknown.
pub open spec fn dispatch_outcome(name: Seq<char>) -> Result<Command, Seq<char>> {
    match command_of(name) {
        Some(c) => Ok(c),
        None => Err("unknown command: "@ + name),
    }
}

/// The outcome of reading a whole command line.
pub open spec fn parse_outcome(s: Seq<char>) -> Result<Command, Seq<char>> {
    if is_blank(s) {
        Err("Empty command"@)
    } else if unclosed_quote(s) {
        Err("Unclosed quote"@)
    } else if tokens_of(s).len() == 0 {
        Err("No command found"@)
    } else {
        dispatch_outcome(tokens_of(s)[0])
    }
}

proof fn lemma_views_push(v: Seq<String>, t: String)
    ensures
        views(v.push(t)) == views(v).push(t@),
{
    assert(views(v.push(t)) =~= views(v).push(t@));
}

/// Splits a command line into tokens; fails on a quote left open.
pub fn tokenize(input: &str) -> (r: Result<Vec<String>, String>)
    ensures
        match r {
            Ok(v) => !unclosed_quote(input@) && views(v@) == tokens_of(input@),
            Err(e) => unclosed_quote(input@) && e@ == "Unclosed quote"@,
        },
{
    let ghost s = input@;
    let n = input.unicode_len();
    let mut tokens: Vec<String> = Vec::new();
    let mut current = String::new();
    let mut in_quotes = false;
    let mut i: usize = 0;
    assert(views(tokens@) =~= Seq::<Seq<char>>::empty());
    while i < n
        invariant
            n == s.len(),
            s == input@,
            i <= n,
            scan(s, i as int, views(tokens@), current@, in_quotes) == scan(
                s,
                0,
                seq![],
                seq![],
                false,
            ),
        decreases n - i,
    {
        let ch = input.get_char(i);
        if ch == '"' {
            in_quotes = !in_quotes;
            i = i + 1;
        } else if is_white(ch) && !in_quotes {
            if current.as_str().unicode_len() > 0 {
                proof {
                    lemma_views_push(tokens@, current);
                }
                tokens.push(current);
                current = String::new();
                assert(current@ =~= seq![]);
            }
            i = i + 1;
        } else if ch == '\\' && i + 1 < n && (input.get_char(i + 1) == '"' || input.get_char(i + 1)
            == '\\') {
            let next = input.get_char(i + 1);
            push_char(&mut current, next);
            i = i + 2;
        } else {
            push_char(&mut current, ch);
            i = i + 1;
        }
    }
    if current.as_str().unicode_len() > 0 {
        proof {
            lemma_views_push(tokens@, current);
        }
        tokens.push(current);
    }
    if in_quotes {
        return Err(String::from_str("Unclosed quote"));
    }
    Ok(tokens)
}

/// Maps a parsed command to the command its name stands for.
pub fn dispatch(cmd: ParsedCommand) -> (r: Result<Command, String>)
    ensures
        match r {
            Ok(c) => dispatch_outcome(cmd.name@) == Ok::<Command, Seq<char>>(c),
            Err(e) => dispatch_outcome(cmd.name@) == Err::<Command, Seq<char>>(e@),
        },
{
    let name = cmd.name.as_str();
    if is_single(name, 'c') {
        Ok(Command::ModeToUartChoice)
    } else if is_single(name, 'q') {
        Ok(Command::Quit)
    } else if is_single(name, 'r') {
        Ok(Command::ModeToRateChoice)
    } else if is_single(name, 'o') {
        Ok(Command::Open)
    } else {
        let mut msg = String::from_str("unknown command: ");
        msg.append(name);
        Err(msg)
    }
}

/// Reads a whole command line into a command, or the message that says why
/// it is not one.
pub fn parse_command(input: &str) -> (r: Result<Command, String>)
    ensures
        match r {
            Ok(c) => parse_outcome(input@) == Ok::<Command, Seq<char>>(c),
            Err(e) => parse_outcome(input@) == Err::<Command, Seq<char>>(e@),
        },
{
    if is_blank_str(input) {
        return Err(String::from_str("Empty command"));
    }
    let mut tokens = match tokenize(input) {
        Ok(t) => t,
        Err(e) => {
            return Err(e);
        },
    };
    if tokens.len() == 0 {
        return Err(String::from_str("No command found"));
    }
    let name = tokens.remove(0);
    assert(name@ == tokens_of(input@)[0]);
    let command = ParsedCommand { name, args: tokens };
    dispatch(command)
}

} // verus!
