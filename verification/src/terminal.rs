//! The command interpreter: a fixed, case-sensitive dispatch table from a
//! submitted line to a history operation plus an optional navigation side
//! effect. The interpreter is total: anything outside the table becomes a
//! "command not found" text entry.

use vstd::prelude::*;
use vstd::string::StringExecFns;

verus! {

/// Whether a scrollback entry renders as plain text or as a hyperlink.
#[derive(Clone, Copy, Debug, PartialEq, Eq, Structural)]
pub enum CommandKind {
    Text,
    Link,
}

/// One interpreted terminal line, rendered as one scrollback entry.
///
/// For a `Text` entry, `value` is the message shown; for a `Link` entry,
/// `value` is the URL the rendered anchor points at and `label` its visible
/// text. `label` tags `Text` entries instead (`"help"`, `"invalid"`).
#[derive(Clone, Debug, PartialEq, Eq)]
pub struct Command {
    /// The raw text the user typed, echoed back in the scrollback.
    pub input: String,
    pub kind: CommandKind,
    pub value: String,
    pub label: String,
}

/// Mathematical model of a `Command`: the same fields, strings as
/// character sequences.
pub struct CommandModel {
    pub input: Seq<char>,
    pub kind: CommandKind,
    pub value: Seq<char>,
    pub label: Seq<char>,
}

impl View for Command {
    type V = CommandModel;

    open spec fn view(&self) -> CommandModel {
        CommandModel {
            input: self.input@,
            kind: self.kind,
            value: self.value@,
            label: self.label@,
        }
    }
}

/// What one submission does to the history: wipe it, append one entry, or
/// wipe it and then append one entry (the capacity policy's combined form).
#[derive(Clone, Debug, PartialEq, Eq)]
pub enum HistoryOp {
    Clear,
    Append(Command),
    ClearThenAppend(Command),
}

/// Mathematical model of a `HistoryOp`.
pub enum HistoryOpModel {
    Clear,
    Append(CommandModel),
    ClearThenAppend(CommandModel),
}

impl View for HistoryOp {
    type V = HistoryOpModel;

    open spec fn view(&self) -> HistoryOpModel {
        match self {
            HistoryOp::Clear => HistoryOpModel::Clear,
            HistoryOp::Append(c) => HistoryOpModel::Append(c@),
            HistoryOp::ClearThenAppend(c) => HistoryOpModel::ClearThenAppend(c@),
        }
    }
}

/// The navigation side effect of one submission: nothing, or an instruction
/// to the hosting page to open the given URL in a new browsing context.
/// The interpreter only reports it; the host performs it, fire-and-forget.
#[derive(Clone, Debug, PartialEq, Eq)]
pub enum SideEffect {
    NoEffect,
    OpenUrl(String),
}

/// Mathematical model of a `SideEffect`.
pub enum SideEffectModel {
    NoEffect,
    OpenUrl(Seq<char>),
}

impl View for SideEffect {
    type V = SideEffectModel;

    open spec fn view(&self) -> SideEffectModel {
        match self {
            SideEffect::NoEffect => SideEffectModel::NoEffect,
            SideEffect::OpenUrl(url) => SideEffectModel::OpenUrl(url@),
        }
    }
}

/// Everything one submission decides: the history operation and the side
/// effect.
#[derive(Clone, Debug, PartialEq, Eq)]
pub struct Interpretation {
    pub op: HistoryOp,
    pub effect: SideEffect,
}

/// Mathematical model of an `Interpretation`.
pub struct InterpretationModel {
    pub op: HistoryOpModel,
    pub effect: SideEffectModel,
}

impl View for Interpretation {
    type V = InterpretationModel;

    open spec fn view(&self) -> InterpretationModel {
        InterpretationModel { op: self.op@, effect: self.effect@ }
    }
}

/// The history length above which a submission wipes the scrollback before
/// appending, instead of appending once more.
pub const HISTORY_LIMIT: usize = 12;

/// The message the `help` command prints, verbatim.
pub open spec fn help_text() -> Seq<char> {
    "Available commands: help, pwd, git, vim, email, sudo, linkedin, clear"@
}

/// The URL the `sudo` command opens: a fixed joke.
pub open spec fn sudo_url() -> Seq<char> {
    "https://www.youtube.com/watch?v=dQw4w9WgXcQ"@
}

/// The URL the `pwd` command opens: this site's own repository.
pub open spec fn pwd_url() -> Seq<char> {
    "https://github.com/safstromo/rabbitnook"@
}

/// The URL the `git` command opens: the author's profile.
pub open spec fn git_url() -> Seq<char> {
    "https://github.com/safstromo"@
}

/// The URL the `email` command opens.
pub open spec fn email_url() -> Seq<char> {
    "mailto:safstrom.oliver@gmail.com"@
}

/// The URL the `linkedin` command opens.
pub open spec fn linkedin_url() -> Seq<char> {
    "https://www.linkedin.com/in/safstromo/"@
}

/// The URL the `vim` command opens: the author's editor configuration.
pub open spec fn vim_url() -> Seq<char> {
    "https://github.com/safstromo/.dotfiles/tree/main/nvim/.config/nvim"@
}

/// The message shown for an input outside the dispatch table.
pub open spec fn not_found_text(s: Seq<char>) -> Seq<char> {
    s + ": command not found"@
}

/// Whether `s` matches a dispatch-table key exactly. Everything else falls
/// through to the "command not found" branch.
pub open spec fn recognized(s: Seq<char>) -> bool {
    ||| s == "clear"@
    ||| s == "help"@
    ||| s == "sudo"@
    ||| s == "pwd"@
    ||| s == "git"@
    ||| s == "email"@
    ||| s == "linkedin"@
    ||| s == "vim"@
}

/// A plain-text scrollback entry.
pub open spec fn text_entry_model(input: Seq<char>, message: Seq<char>, label: Seq<char>) -> CommandModel {
    CommandModel { input, kind: CommandKind::Text, value: message, label }
}

/// A hyperlink scrollback entry pointing at `url`.
pub open spec fn link_entry_model(input: Seq<char>, url: Seq<char>, label: Seq<char>) -> CommandModel {
    CommandModel { input, kind: CommandKind::Link, value: url, label }
}

/// The entry a non-`clear` submission appends: the dispatch table of
/// everything but `clear`, with the default branch last.
pub open spec fn classify(s: Seq<char>) -> CommandModel {
    if s == "help"@ {
        text_entry_model(s, help_text(), "help"@)
    } else if s == "sudo"@ {
        link_entry_model(s, sudo_url(), "sudo"@)
    } else if s == "pwd"@ {
        link_entry_model(s, pwd_url(), "github.com/safstromo/rabbitnook"@)
    } else if s == "git"@ {
        link_entry_model(s, git_url(), "github.com/safstromo"@)
    } else if s == "email"@ {
        link_entry_model(s, email_url(), "safstrom.oliver@gmail.com"@)
    } else if s == "linkedin"@ {
        link_entry_model(s, linkedin_url(), "linkedin.com/in/safstromo"@)
    } else if s == "vim"@ {
        link_entry_model(s, vim_url(), "nvim .dotfiles"@)
    } else {
        text_entry_model(s, not_found_text(s), "invalid"@)
    }
}

/// The side effect of a submission: a hyperlink entry's URL is opened at
/// classification time, a text entry opens nothing. The URL passed to the
/// host is therefore exactly the URL the entry renders.
pub open spec fn effect_of(s: Seq<char>) -> SideEffectModel {
    if classify(s).kind == CommandKind::Link {
        SideEffectModel::OpenUrl(classify(s).value)
    } else {
        SideEffectModel::NoEffect
    }
}

/// How an appending submission reaches the history: once the scrollback holds
/// more than `HISTORY_LIMIT` entries it is wiped first, in full — a deliberate
/// clear-then-append, not a sliding window.
pub open spec fn append_op_model(c: CommandModel, history_len: nat) -> HistoryOpModel {
    if history_len > HISTORY_LIMIT {
        HistoryOpModel::ClearThenAppend(c)
    } else {
        HistoryOpModel::Append(c)
    }
}

/// What `interpret` decides for input `s` against a history of length
/// `history_len`: `clear` wipes the scrollback and nothing else; every other
/// input appends its entry, behind the capacity policy, with the side effect
/// of `effect_of`.
pub open spec fn interpret_model(s: Seq<char>, history_len: nat) -> InterpretationModel {
    if s == "clear"@ {
        InterpretationModel { op: HistoryOpModel::Clear, effect: SideEffectModel::NoEffect }
    } else {
        InterpretationModel {
            op: append_op_model(classify(s), history_len),
            effect: effect_of(s),
        }
    }
}

/// The entry a history operation appends, if any.
pub open spec fn op_appended(op: HistoryOpModel) -> Option<CommandModel> {
    match op {
        HistoryOpModel::Clear => None,
        HistoryOpModel::Append(c) => Some(c),
        HistoryOpModel::ClearThenAppend(c) => Some(c),
    }
}

/// Any input outside the dispatch table — for every such string and every
/// history length — yields a plain-text entry reading
/// `<input>: command not found`, tagged `invalid`, and no side effect.
pub proof fn lemma_unrecognized_not_found(s: Seq<char>, n: nat)
    requires
        !recognized(s),
    ensures
        interpret_model(s, n).effect == SideEffectModel::NoEffect,
        op_appended(interpret_model(s, n).op) == Some(
            text_entry_model(s, not_found_text(s), "invalid"@),
        ),
{
}

/// `clear` always wipes the whole scrollback and opens nothing, whatever
/// the history length.
pub proof fn lemma_clear_command(n: nat)
    ensures
        interpret_model("clear"@, n).op == HistoryOpModel::Clear,
        interpret_model("clear"@, n).effect == SideEffectModel::NoEffect,
{
}

/// `help` always appends the same fixed text entry, verbatim, whatever the
/// history length, and opens nothing.
pub proof fn lemma_help_command(n: nat)
    ensures
        op_appended(interpret_model("help"@, n).op) == Some(
            text_entry_model("help"@, help_text(), "help"@),
        ),
        interpret_model("help"@, n).effect == SideEffectModel::NoEffect,
{
    reveal_strlit("clear");
    reveal_strlit("help");
    // `help` is not `clear`: the lengths differ.
    assert("help"@.len() == 4 && "clear"@.len() == 5);
    assert("help"@ != "clear"@);
}

/// Each of the six link commands opens exactly its fixed URL, and the
/// appended hyperlink entry renders that same URL — whatever the history
/// length.
pub proof fn lemma_link_commands(n: nat)
    ensures
        interpret_model("sudo"@, n).effect == SideEffectModel::OpenUrl(sudo_url()),
        op_appended(interpret_model("sudo"@, n).op) == Some(
            link_entry_model("sudo"@, sudo_url(), "sudo"@),
        ),
        interpret_model("pwd"@, n).effect == SideEffectModel::OpenUrl(pwd_url()),
        op_appended(interpret_model("pwd"@, n).op) == Some(
            link_entry_model("pwd"@, pwd_url(), "github.com/safstromo/rabbitnook"@),
        ),
        interpret_model("git"@, n).effect == SideEffectModel::OpenUrl(git_url()),
        op_appended(interpret_model("git"@, n).op) == Some(
            link_entry_model("git"@, git_url(), "github.com/safstromo"@),
        ),
        interpret_model("email"@, n).effect == SideEffectModel::OpenUrl(email_url()),
        op_appended(interpret_model("email"@, n).op) == Some(
            link_entry_model("email"@, email_url(), "safstrom.oliver@gmail.com"@),
        ),
        interpret_model("linkedin"@, n).effect == SideEffectModel::OpenUrl(linkedin_url()),
        op_appended(interpret_model("linkedin"@, n).op) == Some(
            link_entry_model("linkedin"@, linkedin_url(), "linkedin.com/in/safstromo"@),
        ),
        interpret_model("vim"@, n).effect == SideEffectModel::OpenUrl(vim_url()),
        op_appended(interpret_model("vim"@, n).op) == Some(
            link_entry_model("vim"@, vim_url(), "nvim .dotfiles"@),
        ),
{
    reveal_strlit("clear");
    reveal_strlit("help");
    reveal_strlit("sudo");
    reveal_strlit("pwd");
    reveal_strlit("git");
    reveal_strlit("email");
    reveal_strlit("linkedin");
    reveal_strlit("vim");
    // Keys of equal length are told apart by their first character.
    assert("sudo"@[0] == 's' && "help"@[0] == 'h');
    assert("git"@[0] == 'g' && "pwd"@[0] == 'p');
    assert("email"@[0] == 'e' && "clear"@[0] == 'c');
    assert("vim"@[0] == 'v');
    assert("sudo"@ != "help"@);
    assert("git"@ != "pwd"@);
    assert("email"@ != "clear"@);
    assert("vim"@ != "pwd"@ && "vim"@ != "git"@);
}

/// A URL the interpreter can attach to a hyperlink entry: one of the six
/// fixed absolute URLs of the dispatch table.
pub open spec fn fixed_url(u: Seq<char>) -> bool {
    ||| u == sudo_url()
    ||| u == pwd_url()
    ||| u == git_url()
    ||| u == email_url()
    ||| u == linkedin_url()
    ||| u == vim_url()
}

/// Every hyperlink entry the interpreter appends points at one of the six
/// fixed absolute URLs; the navigation side effect opens exactly the URL of
/// the appended hyperlink entry; and a submission that appends a text entry
/// opens nothing.
pub proof fn lemma_link_entry_url(s: Seq<char>, n: nat)
    ensures
        op_appended(interpret_model(s, n).op) matches Some(c) ==> (c.kind == CommandKind::Link
            ==> fixed_url(c.value)),
        interpret_model(s, n).effect matches SideEffectModel::OpenUrl(u)
            ==> op_appended(interpret_model(s, n).op) matches Some(c)
            && c.kind == CommandKind::Link && c.value == u,
        interpret_model(s, n).effect is NoEffect ==> (op_appended(
            interpret_model(s, n).op,
        ) matches Some(c) ==> c.kind == CommandKind::Text),
{
}

/// Exact string match against a dispatch-table key: no trimming, no case
/// folding.
fn input_is(input: &String, key: &str) -> (r: bool)
    ensures
        r == (input@ == key@),
{
    let key_owned: String = key.to_owned();
    *input == key_owned
}

/// Builds a plain-text scrollback entry.
fn text_entry(input: String, message: String, label: &str) -> (c: Command)
    ensures
        c@ == text_entry_model(input@, message@, label@),
{
    Command { input, kind: CommandKind::Text, value: message, label: label.to_owned() }
}

/// Builds a hyperlink scrollback entry.
fn link_entry(input: String, url: &str, label: &str) -> (c: Command)
    ensures
        c@ == link_entry_model(input@, url@, label@),
{
    Command { input, kind: CommandKind::Link, value: url.to_owned(), label: label.to_owned() }
}

/// Wraps an entry in the capacity policy: against an over-full history the
/// append becomes a clear-then-append.
fn append_op(c: Command, history_len: usize) -> (op: HistoryOp)
    ensures
        op@ == append_op_model(c@, history_len as nat),
{
    if history_len > HISTORY_LIMIT {
        HistoryOp::ClearThenAppend(c)
    } else {
        HistoryOp::Append(c)
    }
}

/// Classifies one submitted line against the dispatch table and decides what
/// it does to a history currently holding `history_len` entries.
///
/// Matching is exact and case-sensitive: `"Help"` or `" help"` fall through
/// to the "command not found" branch, as does the empty string. The returned
/// side effect is only reported; the caller performs the navigation.
pub fn interpret(raw: String, history_len: usize) -> (r: Interpretation)
    ensures
        r@ == interpret_model(raw@, history_len as nat),
{
    if input_is(&raw, "clear") {
        Interpretation { op: HistoryOp::Clear, effect: SideEffect::NoEffect }
    } else if input_is(&raw, "help") {
        let message: String =
            "Available commands: help, pwd, git, vim, email, sudo, linkedin, clear".to_owned();
        Interpretation {
            op: append_op(text_entry(raw, message, "help"), history_len),
            effect: SideEffect::NoEffect,
        }
    } else if input_is(&raw, "sudo") {
        let url: &str = "https://www.youtube.com/watch?v=dQw4w9WgXcQ";
        Interpretation {
            op: append_op(link_entry(raw, url, "sudo"), history_len),
            effect: SideEffect::OpenUrl(url.to_owned()),
        }
    } else if input_is(&raw, "pwd") {
        let url: &str = "https://github.com/safstromo/rabbitnook";
        Interpretation {
            op: append_op(link_entry(raw, url, "github.com/safstromo/rabbitnook"), history_len),
            effect: SideEffect::OpenUrl(url.to_owned()),
        }
    } else if input_is(&raw, "git") {
        let url: &str = "https://github.com/safstromo";
        Interpretation {
            op: append_op(link_entry(raw, url, "github.com/safstromo"), history_len),
            effect: SideEffect::OpenUrl(url.to_owned()),
        }
    } else if input_is(&raw, "email") {
        let url: &str = "mailto:safstrom.oliver@gmail.com";
        Interpretation {
            op: append_op(link_entry(raw, url, "safstrom.oliver@gmail.com"), history_len),
            effect: SideEffect::OpenUrl(url.to_owned()),
        }
    } else if input_is(&raw, "linkedin") {
        let url: &str = "https://www.linkedin.com/in/safstromo/";
        Interpretation {
            op: append_op(link_entry(raw, url, "linkedin.com/in/safstromo"), history_len),
            effect: SideEffect::OpenUrl(url.to_owned()),
        }
    } else if input_is(&raw, "vim") {
        let url: &str = "https://github.com/safstromo/.dotfiles/tree/main/nvim/.config/nvim";
        Interpretation {
            op: append_op(link_entry(raw, url, "nvim .dotfiles"), history_len),
            effect: SideEffect::OpenUrl(url.to_owned()),
        }
    } else {
        let message: String = raw.clone().concat(": command not found");
        Interpretation {
            op: append_op(text_entry(raw, message, "invalid"), history_len),
            effect: SideEffect::NoEffect,
        }
    }
}

} // verus!
