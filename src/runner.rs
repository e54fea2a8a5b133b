//! The session: resolves each submitted line to a command and runs it,
//! classifies the errors, records the history, and pages through it with the
//! arrow keys.
//!
//! The session does no I/O itself. It is driven one event at a time and
//! answers with the next action for its host: listen for the next event,
//! show a recalled line in the edit buffer, load or store the ledger, or end.
//! Text for the user is appended to an output string that the host writes.
use vstd::prelude::*;
use crate::cmd::{Cmd, CmdError, CmdErrorType, CmdResult, message_of};
use crate::editor::InputEvent;
use crate::history::{InputHistory, history_insert};
use crate::ledger::Ledger;
use crate::registry::{CommandRegistry, help_listing_text, is_registered, resolves};
use crate::text::{eq_ignore_ascii_case, eq_ignore_case};
use crate::tokenizer::{string_views, tokenize, tokenize_string};
use vstd::arithmetic::div_mod::{lemma_add_mod_noop_right, lemma_small_mod};

verus! {

/// What a tokenized line asks for.
#[derive(Debug)]
pub enum Dispatch {
    /// The line holds no tokens.
    Nothing,
    /// `help` alone: list every command.
    HelpListing,
    /// `help NAME` for a registered name: that command's help text.
    HelpFor(usize),
    /// `help NAME` for a name that is not registered.
    HelpUnknown(String),
    /// A command name that is not registered.
    Unknown(String),
    /// `NAME --help`: that command's help text.
    CommandHelp(usize),
    /// Run the command with the tokens that followed its name.
    Execute(usize, Vec<String>),
}

/// How a line with tokens `toks` is dispatched, given the names of the
/// registered commands. `help` and `--help` are compared up to ASCII case,
/// command names exactly.
pub open spec fn dispatch_of(lists: Seq<Seq<Seq<char>>>, toks: Seq<Seq<char>>, d: Dispatch) -> bool {
    if toks.len() == 0 {
        d is Nothing
    } else if eq_ignore_case(toks[0], "help"@) {
        if toks.len() == 1 {
            d is HelpListing
        } else if is_registered(lists, toks[1]) {
            d matches Dispatch::HelpFor(i) && resolves(lists, toks[1], i as int)
        } else {
            d matches Dispatch::HelpUnknown(s) && s@ == toks[1]
        }
    } else if !is_registered(lists, toks[0]) {
        d matches Dispatch::Unknown(s) && s@ == toks[0]
    } else if toks.len() > 1 && eq_ignore_case(toks[1], "--help"@) {
        d matches Dispatch::CommandHelp(i) && resolves(lists, toks[0], i as int)
    } else {
        d matches Dispatch::Execute(i, args) && resolves(lists, toks[0], i as int) && string_views(
            args@,
        ) == toks.skip(1)
    }
}

/// Decides how a tokenized line is dispatched. A registered command is
/// handed exactly the tokens after its name, in order.
pub fn plan(registry: &CommandRegistry, tokens: Vec<String>) -> (r: Dispatch)
    ensures
        dispatch_of(registry.names_view(), string_views(tokens@), r),
{
    let ghost toks = string_views(tokens@);
    let mut tokens = tokens;
    if tokens.len() == 0 {
        return Dispatch::Nothing;
    }
    if eq_ignore_ascii_case(tokens[0].as_str(), "help") {
        if tokens.len() == 1 {
            return Dispatch::HelpListing;
        }
        return match registry.lookup(tokens[1].as_str()) {
            Some(i) => Dispatch::HelpFor(i),
            None => Dispatch::HelpUnknown(tokens[1].clone()),
        };
    }
    match registry.lookup(tokens[0].as_str()) {
        None => Dispatch::Unknown(tokens[0].clone()),
        Some(i) => {
            if tokens.len() > 1 && eq_ignore_ascii_case(tokens[1].as_str(), "--help") {
                Dispatch::CommandHelp(i)
            } else {
                let args = tokens.split_off(1);
                assert(string_views(args@) =~= toks.skip(1));
                Dispatch::Execute(i, args)
            }
        },
    }
}

/// An error that ends the handling of a line, reported to the user.
#[derive(Debug)]
pub enum DispatchError {
    /// The line named no registered command.
    UnknownCommand(String),
    /// The command failed with an argument or dependency error.
    Command(CmdError),
}

pub open spec fn unknown_command_message(name: Seq<char>) -> Seq<char> {
    "Could not find command named '"@ + name + "'"@
}

pub open spec fn dispatch_error_message(e: DispatchError) -> Seq<char> {
    match e {
        DispatchError::UnknownCommand(s) => unknown_command_message(s@),
        DispatchError::Command(c) => message_of(c),
    }
}

impl DispatchError {
    /// The line that reports this error to the user.
    pub fn message(&self) -> (r: String)
        ensures
            r@ == dispatch_error_message(*self),
    {
        match self {
            DispatchError::UnknownCommand(s) => {
                let mut r = String::from_str("Could not find command named '");
                r.append(s.as_str());
                r.append("'");
                r
            },
            DispatchError::Command(c) => c.message(),
        }
    }
}

/// What the host does next.
#[derive(Debug)]
pub enum Action {
    /// Read the next event.
    Listen,
    /// Put this line in the edit buffer, then read the next event.
    ShowInput(String),
    /// Read the stored ledger and hand the result to `finish_load`.
    LoadLedger,
    /// Write `ledger()` to storage and hand the result to `finish_store`.
    StoreLedger,
    /// End the session.
    Terminate,
}

/// `r` and the output `out_after` are how the session treats the command
/// outcome `outcome`, from the output `out_before`.
pub open spec fn outcome_classified(
    outcome: Result<CmdResult, CmdError>,
    out_before: Seq<char>,
    out_after: Seq<char>,
    r: Result<CmdResult, DispatchError>,
) -> bool {
    match outcome {
        Ok(res) => (r matches Ok(x) && x == res) && out_after == out_before,
        Err(e) => if e.error_type is Syntax {
            &&& r matches Ok(CmdResult::Continue)
            &&& out_after == out_before + "Syntax Error: "@ + message_of(e) + "\n"@
        } else {
            (r matches Err(DispatchError::Command(c)) && c == e) && out_after == out_before
        },
    }
}

/// How the session treats what a command returned: a syntax error is
/// reported here, prefixed with `Syntax Error: `, and counts as done; an
/// argument or dependency error is passed on.
pub fn classify_outcome(outcome: Result<CmdResult, CmdError>, out: &mut String) -> (r: Result<
    CmdResult,
    DispatchError,
>)
    ensures
        outcome_classified(outcome, old(out)@, final(out)@, r),
{
    match outcome {
        Ok(res) => Ok(res),
        Err(e) => {
            if let CmdErrorType::Syntax(_) = &e.error_type {
                out.append("Syntax Error: ");
                out.append(e.message().as_str());
                out.append("\n");
                Ok(CmdResult::Continue)
            } else {
                Err(DispatchError::Command(e))
            }
        },
    }
}

/// The host's next action once a line was handled. An error is reported on
/// one line and the session listens on: no error ends the session.
pub fn next_action(result: Result<CmdResult, DispatchError>, out: &mut String) -> (r: Action)
    ensures
        match result {
            Ok(CmdResult::Continue) => r is Listen && final(out)@ == old(out)@,
            Ok(CmdResult::SignalTerminate) => r is Terminate && final(out)@ == old(out)@,
            Ok(CmdResult::LoadRequested) => r is LoadLedger && final(out)@ == old(out)@,
            Ok(CmdResult::StoreRequested) => r is StoreLedger && final(out)@ == old(out)@,
            Err(e) => r is Listen && final(out)@ == old(out)@ + dispatch_error_message(e) + "\n"@,
        },
{
    match result {
        Ok(CmdResult::Continue) => Action::Listen,
        Ok(CmdResult::SignalTerminate) => Action::Terminate,
        Ok(CmdResult::LoadRequested) => Action::LoadLedger,
        Ok(CmdResult::StoreRequested) => Action::StoreLedger,
        Err(e) => {
            out.append(e.message().as_str());
            out.append("\n");
            Action::Listen
        },
    }
}

/// The history cursor after an arrow key: the first arrow shows the most
/// recent entry; then Up moves to older entries and Down to newer ones,
/// wrapping around at both ends.
pub open spec fn next_cursor(paging: Option<usize>, n: nat, up: bool) -> nat {
    match paging {
        None => 0,
        Some(i) => if up {
            ((i + 1) % (n as int)) as nat
        } else {
            ((i + n - 1) % (n as int)) as nat
        },
    }
}

/// The reply to a line that starts with `help`.
pub open spec fn help_reply(
    lists: Seq<Seq<Seq<char>>>,
    helps: Seq<Seq<char>>,
    toks: Seq<Seq<char>>,
) -> Seq<char> {
    if toks.len() == 1 {
        help_listing_text(lists)
    } else if is_registered(lists, toks[1]) {
        helps[choose|i: int| resolves(lists, toks[1], i)] + "\n"@
    } else {
        "No command named '"@ + toks[1] + "'\n"@
    }
}

pub struct CliRunner<C> {
    commands: Vec<C>,
    registry: CommandRegistry,
    ledger: Ledger,
    history: InputHistory,
    paging: Option<usize>,
}

impl<C: Cmd> CliRunner<C> {
    pub closed spec fn wf(&self) -> bool {
        &&& self.registry.wf()
        &&& self.registry.names_view().len() == self.commands@.len()
        &&& self.registry.help_view().len() == self.commands@.len()
        &&& self.ledger.wf()
        &&& self.history.wf()
        &&& self.paging matches Some(i) ==> i < self.history@.len()
    }

    /// The names of each command, in registration order.
    pub closed spec fn names_view(&self) -> Seq<Seq<Seq<char>>> {
        self.registry.names_view()
    }

    /// The help text of each command, in registration order.
    pub closed spec fn help_view(&self) -> Seq<Seq<char>> {
        self.registry.help_view()
    }

    /// The commands, in registration order.
    pub closed spec fn commands_view(&self) -> Seq<C> {
        self.commands@
    }

    pub closed spec fn ledger_view(&self) -> Ledger {
        self.ledger
    }

    /// The submitted lines, most recent first.
    pub closed spec fn history_view(&self) -> Seq<Seq<char>> {
        self.history@
    }

    /// The history cursor while paging; `None` when idle.
    pub closed spec fn paging_view(&self) -> Option<usize> {
        self.paging
    }

    /// A session over these commands, with an empty ledger and history.
    pub fn create(cmds: Vec<C>) -> (r: CliRunner<C>)
        ensures
            r.wf(),
            r.commands_view() == cmds@,
            r.names_view() == cmds@.map_values(|c: C| c.names_spec()),
            r.help_view() == cmds@.map_values(|c: C| c.help_spec()),
            r.history_view() == Seq::<Seq<char>>::empty(),
            r.paging_view() is None,
            r.ledger_view().accounts_view() == Seq::<crate::ledger::account::Account>::empty(),
            r.ledger_view().categories_view()@ == Seq::<Seq<char>>::empty(),
    {
        let mut registry = CommandRegistry::new();
        let mut i: usize = 0;
        while i < cmds.len()
            invariant
                i <= cmds@.len(),
                registry.wf(),
                registry.names_view() =~= cmds@.subrange(0, i as int).map_values(
                    |c: C| c.names_spec(),
                ),
                registry.help_view() =~= cmds@.subrange(0, i as int).map_values(
                    |c: C| c.help_spec(),
                ),
            decreases cmds@.len() - i,
        {
            registry.register(cmds[i].names(), cmds[i].help_text());
            assert(cmds@.subrange(0, i + 1) =~= cmds@.subrange(0, i as int).push(cmds@[i as int]));
            i = i + 1;
        }
        assert(cmds@.subrange(0, i as int) =~= cmds@);
        CliRunner {
            commands: cmds,
            registry,
            ledger: Ledger::new_empty(),
            history: InputHistory::new(),
            paging: None,
        }
    }

    pub fn ledger(&self) -> (r: &Ledger)
        ensures
            *r == self.ledger_view(),
    {
        &self.ledger
    }

    /// The submitted lines, most recent first.
    pub fn history_entries(&self) -> (r: Vec<String>)
        ensures
            string_views(r@) == self.history_view(),
    {
        self.history.entries()
    }

    /// Records a submitted line in the history.
    pub fn add_input_to_history(&mut self, input: String)
        requires
            old(self).wf(),
        ensures
            final(self).wf(),
            final(self).history_view() == history_insert(old(self).history_view(), input@),
            final(self).ledger_view() == old(self).ledger_view(),
            final(self).commands_view() == old(self).commands_view(),
            final(self).names_view() == old(self).names_view(),
            final(self).help_view() == old(self).help_view(),
            final(self).paging_view() is None,
    {
        self.paging = None;
        self.history.add(input);
    }

    fn write_help(&self, d: &Dispatch, out: &mut String)
        requires
            self.wf(),
            d matches Dispatch::HelpFor(i) ==> i < self.help_view().len(),
        ensures
            match *d {
                Dispatch::HelpListing => final(out)@ == old(out)@ + help_listing_text(
                    self.names_view(),
                ),
                Dispatch::HelpFor(i) => final(out)@ == old(out)@ + self.help_view()[i as int]
                    + "\n"@,
                Dispatch::HelpUnknown(s) => final(out)@ == old(out)@ + "No command named '"@ + s@
                    + "'\n"@,
                _ => final(out)@ == old(out)@,
            },
    {
        match d {
            Dispatch::HelpListing => self.registry.write_listing(out),
            Dispatch::HelpFor(i) => {
                out.append(self.registry.help_text(*i).as_str());
                out.append("\n");
            },
            Dispatch::HelpUnknown(s) => {
                out.append("No command named '");
                out.append(s.as_str());
                out.append("'\n");
            },
            _ => {},
        }
    }

    /// Tokenizes a line and dispatches it. Help requests are answered here;
    /// a syntax error of the command is reported here and counts as done;
    /// an unknown command name, and the command's argument and dependency
    /// errors, are returned.
    pub fn run_cmd(&mut self, raw_input: &str, out: &mut String) -> (r: Result<
        CmdResult,
        DispatchError,
    >)
        requires
            old(self).wf(),
        ensures
            final(self).wf(),
            final(self).commands_view() == old(self).commands_view(),
            final(self).names_view() == old(self).names_view(),
            final(self).help_view() == old(self).help_view(),
            final(self).history_view() == old(self).history_view(),
            final(self).paging_view() == old(self).paging_view(),
            ({
                let toks = tokenize(raw_input@);
                let lists = old(self).names_view();
                let unchanged = final(self).ledger_view() == old(self).ledger_view();
                if toks.len() == 0 {
                    r matches Ok(CmdResult::Continue) && unchanged && final(out)@ == old(out)@
                } else if eq_ignore_case(toks[0], "help"@) {
                    &&& r matches Ok(CmdResult::Continue)
                    &&& unchanged
                    &&& final(out)@ == old(out)@ + help_reply(lists, old(self).help_view(), toks)
                } else if !is_registered(lists, toks[0]) {
                    &&& r matches Err(DispatchError::UnknownCommand(s)) && s@ == toks[0]
                    &&& unchanged
                    &&& final(out)@ == old(out)@
                } else if toks.len() > 1 && eq_ignore_case(toks[1], "--help"@) {
                    &&& r matches Ok(CmdResult::Continue)
                    &&& unchanged
                    &&& final(out)@ == old(out)@ + old(self).help_view()[choose|i: int|
                        resolves(lists, toks[0], i)] + "\n"@
                } else {
                    let i = choose|i: int| resolves(lists, toks[0], i);
                    &&& r is Err ==> (r->Err_0 matches DispatchError::Command(e) && !(
                    e.error_type is Syntax))
                    &&& exists|outcome: Result<CmdResult, CmdError>, mid: Seq<char>|
                        #![trigger outcome_classified(outcome, mid, final(out)@, r)]
                        old(self).commands_view()[i].execute_spec(
                            toks.skip(1),
                            old(self).ledger_view(),
                            final(self).ledger_view(),
                            old(out)@,
                            mid,
                            outcome,
                        ) && outcome_classified(outcome, mid, final(out)@, r)
                }
            }),
    {
        let tokens = tokenize_string(raw_input);
        let d = plan(&self.registry, tokens);
        let ghost toks = tokenize(raw_input@);
        let ghost lists = self.registry.names_view();
        match d {
            Dispatch::Nothing => Ok(CmdResult::Continue),
            Dispatch::Unknown(s) => Err(DispatchError::UnknownCommand(s)),
            Dispatch::CommandHelp(i) => {
                assert(resolves(lists, toks[0], i as int));
                out.append(self.registry.help_text(i).as_str());
                out.append("\n");
                Ok(CmdResult::Continue)
            },
            Dispatch::Execute(i, args) => {
                proof {
                    assert forall|j: int| resolves(lists, toks[0], j) implies j == i by {
                        if j < i {
                            assert(lists[i as int].contains(toks[0]));
                        } else if j > i {
                            assert(lists[j].contains(toks[0]));
                        }
                    }
                }
                let ghost before = self.ledger;
                let ghost out_before = out@;
                let outcome = self.commands[i].execute(args.as_slice(), &mut self.ledger, out);
                let ghost mid = out@;
                let ghost res = outcome;
                let r = classify_outcome(outcome, out);
                assert(self.commands@[i as int].execute_spec(
                    toks.skip(1),
                    before,
                    self.ledger,
                    out_before,
                    mid,
                    res,
                ));
                assert(outcome_classified(res, mid, out@, r));
                r
            },
            _ => {
                proof {
                    if toks.len() > 1 && is_registered(lists, toks[1]) {
                        let i = choose|i: int| resolves(lists, toks[1], i);
                        assert(d matches Dispatch::HelpFor(k) && k == i);
                    }
                }
                self.write_help(&d, out);
                Ok(CmdResult::Continue)
            },
        }
    }

    fn page(&mut self, up: bool) -> (r: Action)
        requires
            old(self).wf(),
        ensures
            final(self).wf(),
            final(self).ledger_view() == old(self).ledger_view(),
            final(self).history_view() == old(self).history_view(),
            final(self).commands_view() == old(self).commands_view(),
            final(self).names_view() == old(self).names_view(),
            final(self).help_view() == old(self).help_view(),
            if old(self).history_view().len() == 0 {
                r is Listen && final(self).paging_view() == old(self).paging_view()
            } else {
                let j = next_cursor(old(self).paging_view(), old(self).history_view().len(), up);
                &&& final(self).paging_view() == Some(j as usize)
                &&& r matches Action::ShowInput(s) && s@ == old(self).history_view()[j as int]
            },
    {
        let n = self.history.len();
        if n == 0 {
            return Action::Listen;
        }
        let j: usize = match self.paging {
            None => 0,
            Some(i) => if up {
                (i + 1) % n
            } else {
                (i + n - 1) % n
            },
        };
        self.paging = Some(j);
        Action::ShowInput(self.history.get(j).clone())
    }

    /// Handles one input event. An arrow key starts or continues paging
    /// through the history (nothing happens with an empty history); any other
    /// event ends paging and is handled as usual. A submitted line is
    /// dispatched, then recorded in the history whatever the outcome; errors
    /// are reported on one line and the session goes on. An interrupt ends
    /// the session.
    pub fn handle_input_event(&mut self, event: InputEvent, out: &mut String) -> (r: Action)
        requires
            old(self).wf(),
        ensures
            final(self).wf(),
            final(self).commands_view() == old(self).commands_view(),
            final(self).names_view() == old(self).names_view(),
            final(self).help_view() == old(self).help_view(),
            match event {
                InputEvent::Text(line) => {
                    let toks = tokenize(line@);
                    let lists = old(self).names_view();
                    let unchanged = final(self).ledger_view() == old(self).ledger_view();
                    &&& final(self).paging_view() is None
                    &&& final(self).history_view() == history_insert(
                        old(self).history_view(),
                        line@,
                    )
                    &&& if toks.len() == 0 {
                        r is Listen && unchanged && final(out)@ == old(out)@
                    } else if eq_ignore_case(toks[0], "help"@) {
                        &&& r is Listen
                        &&& unchanged
                        &&& final(out)@ == old(out)@ + help_reply(
                            lists,
                            old(self).help_view(),
                            toks,
                        )
                    } else if !is_registered(lists, toks[0]) {
                        &&& r is Listen
                        &&& unchanged
                        &&& final(out)@ == old(out)@ + unknown_command_message(toks[0]) + "\n"@
                    } else if toks.len() > 1 && eq_ignore_case(toks[1], "--help"@) {
                        &&& r is Listen
                        &&& unchanged
                        &&& final(out)@ == old(out)@ + old(self).help_view()[choose|i: int|
                            resolves(lists, toks[0], i)] + "\n"@
                    } else {
                        !(r is ShowInput)
                    }
                },
                InputEvent::Interrupt => {
                    &&& r is Terminate
                    &&& final(self).paging_view() is None
                    &&& final(self).ledger_view() == old(self).ledger_view()
                    &&& final(self).history_view() == old(self).history_view()
                    &&& final(out)@ == old(out)@
                },
                _ => {
                    let n = old(self).history_view().len();
                    &&& final(self).ledger_view() == old(self).ledger_view()
                    &&& final(self).history_view() == old(self).history_view()
                    &&& final(out)@ == old(out)@
                    &&& if n == 0 {
                        r is Listen && final(self).paging_view() == old(self).paging_view()
                    } else {
                        let j = next_cursor(old(self).paging_view(), n, event is ArrowUp);
                        &&& final(self).paging_view() == Some(j as usize)
                        &&& r matches Action::ShowInput(s) && s@ == old(self).history_view()[j as int]
                    }
                },
            },
    {
        match event {
            InputEvent::ArrowUp => self.page(true),
            InputEvent::ArrowDown => self.page(false),
            InputEvent::Interrupt => {
                self.paging = None;
                Action::Terminate
            },
            InputEvent::Text(line) => {
                self.paging = None;
                let result = self.run_cmd(line.as_str(), out);
                self.history.add(line);
                next_action(result, out)
            },
        }
    }

    /// Completes a load: on success the ledger is replaced by the loaded one.
    pub fn finish_load(&mut self, loaded: Result<Ledger, String>, out: &mut String) -> (r: Action)
        requires
            old(self).wf(),
            loaded matches Ok(l) ==> l.wf(),
        ensures
            final(self).wf(),
            r is Listen,
            final(self).commands_view() == old(self).commands_view(),
            final(self).names_view() == old(self).names_view(),
            final(self).help_view() == old(self).help_view(),
            final(self).history_view() == old(self).history_view(),
            final(self).paging_view() == old(self).paging_view(),
            match loaded {
                Ok(l) => final(self).ledger_view() == l && final(out)@ == old(out)@
                    + "Loaded!\n"@,
                Err(m) => final(self).ledger_view() == old(self).ledger_view() && final(out)@
                    == old(out)@ + m@ + "\n"@,
            },
    {
        match loaded {
            Ok(l) => {
                self.ledger = l;
                out.append("Loaded!\n");
            },
            Err(m) => {
                let e = CmdError::new("load", CmdErrorType::Dependency(m));
                out.append(e.message().as_str());
                out.append("\n");
            },
        }
        Action::Listen
    }

    /// Completes a store, reporting its outcome.
    pub fn finish_store(&mut self, stored: Result<(), String>, out: &mut String) -> (r: Action)
        ensures
            r is Listen,
            *final(self) == *old(self),
            match stored {
                Ok(()) => final(out)@ == old(out)@ + "Saved!\n"@,
                Err(m) => final(out)@ == old(out)@ + "Failed to save data!\n"@ + m@ + "\n"@,
            },
    {
        match stored {
            Ok(()) => out.append("Saved!\n"),
            Err(m) => {
                out.append("Failed to save data!\n");
                let e = CmdError::new("store", CmdErrorType::Dependency(m));
                out.append(e.message().as_str());
                out.append("\n");
            },
        }
        Action::Listen
    }
}

/// The history cursor after `k` presses of the Up arrow from the idle state.
pub open spec fn cursor_after_ups(n: nat, k: nat) -> nat
    decreases k,
{
    if k <= 1 {
        next_cursor(None, n, true)
    } else {
        next_cursor(Some(cursor_after_ups(n, (k - 1) as nat) as usize), n, true)
    }
}

/// Paging wraps around: with `n` entries in the history, the `k`-th press of
/// the Up arrow from the idle state shows entry `(k - 1) mod n`, so the
/// entries come most recent first and the `n + 1`-th press shows the most
/// recent one again.
pub proof fn lemma_paging_wraps(n: nat, k: nat)
    requires
        0 < n <= usize::MAX,
        k >= 1,
    ensures
        cursor_after_ups(n, k) == (k - 1) % (n as int),
    decreases k,
{
    if k > 1 {
        lemma_paging_wraps(n, (k - 1) as nat);
        let c = ((k - 2) % (n as int)) as nat;
        assert((c as usize) as int == c);
        lemma_add_mod_noop_right(1, k - 2, n as int);
        assert((1 + c as int) % (n as int) == (k - 1) % (n as int));
    } else {
        lemma_small_mod(0, n);
    }
}

} // verus!
