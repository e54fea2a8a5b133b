//! Commands: the interface every command implements, the results a command
//! returns, and the error taxonomy.
use vstd::prelude::*;
use crate::ledger::Ledger;
use crate::registry::str_views;
use crate::tokenizer::string_views;

pub mod account;
pub mod category;
pub mod exit;
pub mod load;
pub mod store;
pub mod transaction;

verus! {

#[derive(Debug)]
pub enum SyntaxErrorType {
    MissingSubcommand,
    InvalidSubcommand(String),
    MissingParam(String),
}

#[derive(Debug)]
pub enum CmdErrorType {
    Syntax(SyntaxErrorType),
    Argument(String),
    /// A failure of an outside collaborator, such as storage, by its message.
    Dependency(String),
    InvalidCommand(String),
}

/// An error raised by a command, with the primary name of the command that
/// raised it, if known.
#[derive(Debug)]
pub struct CmdError {
    pub cmd_name: Option<String>,
    pub error_type: CmdErrorType,
}

#[derive(Clone, Copy, Debug, PartialEq, Eq, Structural)]
pub enum CmdResult {
    /// The command is done; the session goes on.
    Continue,
    SignalTerminate,
    /// The command asks for the ledger to be replaced by the stored one.
    LoadRequested,
    /// The command asks for the ledger to be written to storage.
    StoreRequested,
}

/// The name shown for a command in messages.
pub open spec fn shown_name(cmd_name: Option<String>) -> Seq<char> {
    match cmd_name {
        Some(n) => n@,
        None => "<unknown>"@,
    }
}

/// The single line that reports an error to the user.
pub open spec fn message_of(e: CmdError) -> Seq<char> {
    let name = shown_name(e.cmd_name);
    match e.error_type {
        CmdErrorType::Syntax(SyntaxErrorType::MissingSubcommand) => "Command '"@ + name
            + "' needs subcommand."@,
        CmdErrorType::Syntax(SyntaxErrorType::InvalidSubcommand(s)) => "Inavlid subcommand '"@
            + s@ + "' for command "@ + name + "."@,
        CmdErrorType::Syntax(SyntaxErrorType::MissingParam(m)) => m@,
        CmdErrorType::Argument(m) => m@,
        CmdErrorType::Dependency(m) => m@,
        CmdErrorType::InvalidCommand(c) => "Could not find command named '"@ + c@ + "'"@,
    }
}

pub open spec fn raised_by(e: CmdError, cmd: Seq<char>) -> bool {
    e.cmd_name matches Some(n) && n@ == cmd
}

pub open spec fn is_missing_subcommand(e: CmdError) -> bool {
    e.error_type matches CmdErrorType::Syntax(SyntaxErrorType::MissingSubcommand)
}

pub open spec fn is_invalid_subcommand(e: CmdError, sub: Seq<char>) -> bool {
    e.error_type matches CmdErrorType::Syntax(SyntaxErrorType::InvalidSubcommand(s)) && s@ == sub
}

pub open spec fn is_missing_param(e: CmdError, msg: Seq<char>) -> bool {
    e.error_type matches CmdErrorType::Syntax(SyntaxErrorType::MissingParam(m)) && m@ == msg
}

pub open spec fn is_argument_error(e: CmdError, msg: Seq<char>) -> bool {
    e.error_type matches CmdErrorType::Argument(m) && m@ == msg
}

pub open spec fn is_dependency_error(e: CmdError, msg: Seq<char>) -> bool {
    e.error_type matches CmdErrorType::Dependency(m) && m@ == msg
}

impl CmdError {
    /// An error raised by the command with primary name `cmd_name`.
    pub fn new(cmd_name: &str, error_type: CmdErrorType) -> (r: CmdError)
        ensures
            r.cmd_name matches Some(n) && n@ == cmd_name@,
            r.error_type == error_type,
    {
        CmdError { cmd_name: Some(String::from_str(cmd_name)), error_type }
    }

    /// The line that reports this error to the user.
    pub fn message(&self) -> (r: String)
        ensures
            r@ == message_of(*self),
    {
        let name: &str = match &self.cmd_name {
            Some(n) => n.as_str(),
            None => "<unknown>",
        };
        match &self.error_type {
            CmdErrorType::Syntax(SyntaxErrorType::MissingSubcommand) => {
                let mut r = String::from_str("Command '");
                r.append(name);
                r.append("' needs subcommand.");
                r
            },
            CmdErrorType::Syntax(SyntaxErrorType::InvalidSubcommand(s)) => {
                let mut r = String::from_str("Inavlid subcommand '");
                r.append(s.as_str());
                r.append("' for command ");
                r.append(name);
                r.append(".");
                r
            },
            CmdErrorType::Syntax(SyntaxErrorType::MissingParam(m)) => m.clone(),
            CmdErrorType::Argument(m) => m.clone(),
            CmdErrorType::Dependency(m) => m.clone(),
            CmdErrorType::InvalidCommand(c) => {
                let mut r = String::from_str("Could not find command named '");
                r.append(c.as_str());
                r.append("'");
                r
            },
        }
    }
}

/// A command of the shell. Every name in `names` resolves to the command; the
/// first is its primary name, the rest are aliases. `execute` receives the
/// tokens that followed the command's name, the ledger, and the output sink,
/// to which it appends the text for the user. `names_spec`, `help_spec` and
/// `execute_spec` say what `names`, `help_text` and `execute` do; every
/// command of this crate defines them, and a command defined elsewhere that
/// does not leaves them unspecified.
pub trait Cmd {
    /// The command's names: the primary name first, then the aliases.
    closed spec fn names_spec(&self) -> Seq<Seq<char>> {
        arbitrary()
    }

    /// The command's help text.
    closed spec fn help_spec(&self) -> Seq<char> {
        arbitrary()
    }

    fn names(&self) -> (r: Vec<&'static str>)
        ensures
            str_views(r@) == self.names_spec(),
    ;

    fn help_text(&self) -> (r: &'static str)
        ensures
            r@ == self.help_spec(),
    ;

    /// What `execute` does: on arguments `args`, with the ledger `before`
    /// and the output `out_before`, it may leave the ledger `after` and the
    /// output `out_after`, and return `r`.
    closed spec fn execute_spec(
        &self,
        args: Seq<Seq<char>>,
        before: Ledger,
        after: Ledger,
        out_before: Seq<char>,
        out_after: Seq<char>,
        r: Result<CmdResult, CmdError>,
    ) -> bool {
        arbitrary()
    }

    fn execute(&self, args: &[String], ledger: &mut Ledger, out: &mut String) -> (r: Result<
        CmdResult,
        CmdError,
    >)
        requires
            old(ledger).wf(),
        ensures
            final(ledger).wf(),
            self.execute_spec(string_views(args@), *old(ledger), *final(ledger), old(out)@, final(out)@, r),
    ;
}

} // verus!
