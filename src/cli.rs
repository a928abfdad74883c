//! The command line: `program COMMAND LOGIN [NAME:VISIBILITY ...]`, checked
//! into typed arguments or a typed error.
use vstd::prelude::*;
use crate::text::same_text;

verus! {

/// What the command line asks for.
#[derive(Debug, Clone)]
pub enum Command {
    /// List the repositories.
    List,
    /// Change visibilities, one `name:visibility` token each.
    Change(Vec<String>),
    /// A command that is not known; usage is shown.
    Unknown(String),
}

/// Checked command-line arguments.
#[derive(Debug, Clone)]
pub struct Arguments {
    pub program_name: String,
    pub user_name: String,
    pub command: Command,
    pub dev_token: String,
}

/// Why the command line was refused.
#[derive(Debug, Clone, Copy, PartialEq, Eq, Structural)]
pub enum ArgError {
    /// Fewer than a command and a login.
    Usage,
    /// The access token is not set.
    MissingToken,
    /// `change` without any token to apply.
    NoChanges,
}

/// The characters of each string.
pub open spec fn texts(v: Seq<String>) -> Seq<Seq<char>> {
    v.map_values(|s: String| s@)
}

/// The command that the texts of a command line name: given the whole
/// line, which must hold at least a command and a login.
pub ghost enum CommandView {
    List,
    Change(Seq<Seq<char>>),
    Unknown(Seq<char>),
}

/// The view of a parsed command.
pub open spec fn command_view(c: Command) -> CommandView {
    match c {
        Command::List => CommandView::List,
        Command::Change(v) => CommandView::Change(texts(v@)),
        Command::Unknown(s) => CommandView::Unknown(s@),
    }
}

/// How a command line with a token parses, over its texts.
pub open spec fn args_verdict(args: Seq<Seq<char>>, has_token: bool) -> Result<CommandView, ArgError> {
    if args.len() < 3 {
        Err(ArgError::Usage)
    } else if !has_token {
        Err(ArgError::MissingToken)
    } else if args[1] == "repos"@ {
        Ok(CommandView::List)
    } else if args[1] == "change"@ {
        if args.len() > 3 {
            Ok(CommandView::Change(args.subrange(3, args.len() as int)))
        } else {
            Err(ArgError::NoChanges)
        }
    } else {
        Ok(CommandView::Unknown(args[1]))
    }
}

/// Checks the command line `args` (program name first) and the access
/// token read from the environment.
pub fn parse_arguments(args: &Vec<String>, token: Option<String>) -> (r: Result<Arguments, ArgError>)
    ensures
        match (r, args_verdict(texts(args@), token is Some)) {
            (Ok(a), Ok(c)) => {
                &&& command_view(a.command) == c
                &&& a.program_name@ == args@[0]@
                &&& a.user_name@ == args@[2]@
                &&& token == Some(a.dev_token)
            },
            (Err(e), Err(f)) => e == f,
            _ => false,
        },
{
    if args.len() < 3 {
        return Err(ArgError::Usage);
    }
    let dev_token = match token {
        Some(t) => t,
        None => return Err(ArgError::MissingToken),
    };
    let ghost t = texts(args@);
    assert(t[1] == args@[1]@);
    let command = if same_text(args[1].as_str(), "repos") {
        Command::List
    } else if same_text(args[1].as_str(), "change") {
        if args.len() > 3 {
            let mut list: Vec<String> = Vec::new();
            let mut i: usize = 3;
            while i < args.len()
                invariant
                    3 <= i <= args@.len(),
                    list@.len() == i - 3,
                    forall|k: int| 0 <= k < list@.len() ==> #[trigger] list@[k]@ == args@[k + 3]@,
                decreases args@.len() - i,
            {
                let item = args[i].clone();
                list.push(item);
                i = i + 1;
            }
            assert(texts(list@) =~= texts(args@).subrange(3, args@.len() as int));
            Command::Change(list)
        } else {
            return Err(ArgError::NoChanges);
        }
    } else {
        Command::Unknown(args[1].clone())
    };
    Ok(Arguments {
        program_name: args[0].clone(),
        user_name: args[2].clone(),
        command,
        dev_token,
    })
}

} // verus!
