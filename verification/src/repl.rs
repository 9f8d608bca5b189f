//! The dispatch engine and session state.
//!
//! [`Repl`] owns the command registry, the configuration, the prompt state,
//! the queue of init lines and the termination flag. Per input line the host
//! drives the protocol: [`Repl::process_line`] resolves the line (handling
//! the built-ins `help` and `exit` itself); on an [`LineAction::Invoke`]
//! result the host binds the arguments and runs its callback, then calls
//! [`Repl::finish_command`] with the outcome, runs the post-command hook if
//! the result asks for it, and hands the hook's result to
//! [`Repl::apply_hook_result`].

use vstd::prelude::*;
use vstd::string::*;

use crate::command::{command_models, CallbackKind, CommandModel, ReplCommand};
use crate::error::{Error, ErrorModel};
use crate::help::{
    render_command_help, render_help, render_help_not_found, spec_command_help, spec_help_not_found,
    spec_help_text,
};
use crate::prompt::ReplPrompt;
use crate::text::{opt_view, str_eq};
use crate::tokenizer::{seq_views, spec_tokens, tokenize};
use crate::{green_bold_of, paint_green_bold};

verus! {

/// The first command of the sequence with the given name, if any.
pub open spec fn spec_lookup(cmds: Seq<CommandModel>, name: Seq<char>) -> Option<CommandModel>
    decreases cmds.len(),
{
    if cmds.len() == 0 {
        None
    } else if cmds[0].name == name {
        Some(cmds[0])
    } else {
        spec_lookup(cmds.drop_first(), name)
    }
}

/// Registration: a command whose name is already present replaces the prior
/// entry in place; a new name is appended.
pub open spec fn spec_register(cmds: Seq<CommandModel>, c: CommandModel) -> Seq<CommandModel>
    decreases cmds.len(),
{
    if cmds.len() == 0 {
        seq![c]
    } else if cmds[0].name == c.name {
        seq![c] + cmds.drop_first()
    } else {
        seq![cmds[0]] + spec_register(cmds.drop_first(), c)
    }
}

/// A looked-up command bears the name it was looked up under.
pub proof fn lemma_lookup_resolves_name(cmds: Seq<CommandModel>, name: Seq<char>)
    ensures
        spec_lookup(cmds, name) matches Some(c) ==> c.name == name,
    decreases cmds.len(),
{
    if cmds.len() > 0 && cmds[0].name != name {
        lemma_lookup_resolves_name(cmds.drop_first(), name);
    }
}

/// Looking up two different names never yields the same definition: the
/// definitions bear different names, so they differ.
pub proof fn lemma_lookup_no_alias(cmds: Seq<CommandModel>, n1: Seq<char>, n2: Seq<char>)
    requires
        n1 != n2,
    ensures
        match (spec_lookup(cmds, n1), spec_lookup(cmds, n2)) {
            (Some(c1), Some(c2)) => c1 != c2,
            _ => true,
        },
{
    lemma_lookup_resolves_name(cmds, n1);
    lemma_lookup_resolves_name(cmds, n2);
}

/// Re-registering a name replaces the definition: afterwards the name looks
/// up to the new command, and every other name looks up as before. The
/// replaced definition is no longer reachable, so its callback is never
/// chosen again.
pub proof fn lemma_register_replaces(cmds: Seq<CommandModel>, c: CommandModel, name: Seq<char>)
    ensures
        spec_lookup(spec_register(cmds, c), name) == if name == c.name {
            Some(c)
        } else {
            spec_lookup(cmds, name)
        },
    decreases cmds.len(),
{
    reveal_with_fuel(spec_lookup, 3);
    reveal_with_fuel(spec_register, 3);
    let out = spec_register(cmds, c);
    if cmds.len() == 0 {
        if name != c.name {
            assert(out.drop_first() =~= Seq::<CommandModel>::empty());
        }
    } else if cmds[0].name == c.name {
        assert(out.drop_first() =~= cmds.drop_first());
    } else {
        lemma_register_replaces(cmds.drop_first(), c, name);
        assert(out.drop_first() =~= spec_register(cmds.drop_first(), c));
    }
}

/// When the name is present at `i` (and nowhere earlier), registration is
/// an update in place.
proof fn lemma_register_found(cmds: Seq<CommandModel>, c: CommandModel, i: int)
    requires
        0 <= i < cmds.len(),
        cmds[i].name == c.name,
        forall|j: int| 0 <= j < i ==> (#[trigger] cmds[j]).name != c.name,
    ensures
        spec_register(cmds, c) == cmds.update(i, c),
    decreases i,
{
    if i == 0 {
        assert(spec_register(cmds, c) =~= cmds.update(0, c));
    } else {
        lemma_register_found(cmds.drop_first(), c, i - 1);
        assert(spec_register(cmds, c) =~= cmds.update(i, c));
    }
}

/// When the name is absent, registration is an append.
proof fn lemma_register_absent(cmds: Seq<CommandModel>, c: CommandModel)
    requires
        forall|j: int| 0 <= j < cmds.len() ==> (#[trigger] cmds[j]).name != c.name,
    ensures
        spec_register(cmds, c) == cmds.push(c),
    decreases cmds.len(),
{
    if cmds.len() == 0 {
        assert(spec_register(cmds, c) =~= cmds.push(c));
    } else {
        lemma_register_absent(cmds.drop_first(), c);
        assert(spec_register(cmds, c) =~= cmds.push(c));
    }
}

/// Finds the command with the given name in a command list.
pub fn find_command<'a>(commands: &'a Vec<ReplCommand>, name: &str) -> (r: Option<
    &'a ReplCommand,
>)
    ensures
        match r {
            Some(c) => spec_lookup(command_models(commands@), name@) == Some(c@),
            None => spec_lookup(command_models(commands@), name@) is None,
        },
{
    let ghost models = command_models(commands@);
    let n = commands.len();
    proof {
        assert(models.skip(0) =~= models);
    }
    for i in 0..n
        invariant
            n == commands.len(),
            models == command_models(commands@),
            spec_lookup(models, name@) == spec_lookup(models.skip(i as int), name@),
    {
        proof {
            assert(models.skip(i as int)[0] == models[i as int]);
        }
        if str_eq(commands[i].name.as_str(), name) {
            proof {
                assert(spec_lookup(models.skip(i as int), name@) == Some(models[i as int]));
            }
            return Some(&commands[i]);
        }
        proof {
            assert(models.skip(i as int).drop_first() =~= models.skip(i + 1));
        }
    }
    proof {
        assert(models.skip(n as int) =~= Seq::<CommandModel>::empty());
    }
    None
}

/// The engine's session state and configuration, generic over the host's
/// context type. The context is owned by the engine for the life of the
/// session; the host takes one exclusive borrow of it per callback
/// invocation and never keeps it past the call.
pub struct Repl<C> {
    pub context: C,
    pub name: String,
    pub banner: Option<String>,
    pub version: String,
    pub description: String,
    pub prompt: ReplPrompt,
    pub commands: Vec<ReplCommand>,
    pub history: Option<String>,
    pub history_capacity: Option<usize>,
    pub quick_completions: bool,
    pub partial_completions: bool,
    pub hinter_enabled: bool,
    pub stop_on_ctrl_c: bool,
    pub stop_on_ctrl_d: bool,
    pub init_commands: Vec<String>,
    pub terminated: bool,
}

/// The mathematical shape of the session state (the host context aside).
pub struct ReplModel {
    pub name: Seq<char>,
    pub banner: Option<Seq<char>>,
    pub version: Seq<char>,
    pub description: Seq<char>,
    pub prompt: Seq<char>,
    pub commands: Seq<CommandModel>,
    pub history: Option<Seq<char>>,
    pub history_capacity: Option<usize>,
    pub quick_completions: bool,
    pub partial_completions: bool,
    pub hinter_enabled: bool,
    pub stop_on_ctrl_c: bool,
    pub stop_on_ctrl_d: bool,
    pub init_commands: Seq<Seq<char>>,
    pub terminated: bool,
}

impl ReplModel {
    /// Registered command names are unique.
    pub open spec fn wf(&self) -> bool {
        forall|i: int, j: int|
            #![trigger self.commands[i], self.commands[j]]
            0 <= i < j < self.commands.len() ==> self.commands[i].name != self.commands[j].name
    }
}

impl<C> Repl<C> {
    /// The mathematical shape of the session state.
    pub open spec fn model(&self) -> ReplModel {
        ReplModel {
            name: self.name@,
            banner: opt_view(self.banner),
            version: self.version@,
            description: self.description@,
            prompt: self.prompt@,
            commands: command_models(self.commands@),
            history: opt_view(self.history),
            history_capacity: self.history_capacity,
            quick_completions: self.quick_completions,
            partial_completions: self.partial_completions,
            hinter_enabled: self.hinter_enabled,
            stop_on_ctrl_c: self.stop_on_ctrl_c,
            stop_on_ctrl_d: self.stop_on_ctrl_d,
            init_commands: seq_views(self.init_commands@),
            terminated: self.terminated,
        }
    }

    /// Create a new `Repl` with the given context's initial value.
    pub fn new(context: C) -> (r: Self)
        ensures
            r.model() == (ReplModel {
                name: "repl"@,
                banner: None,
                version: Seq::empty(),
                description: Seq::empty(),
                prompt: green_bold_of("repl> "@),
                commands: Seq::empty(),
                history: None,
                history_capacity: None,
                quick_completions: true,
                partial_completions: false,
                hinter_enabled: true,
                stop_on_ctrl_c: false,
                stop_on_ctrl_d: true,
                init_commands: Seq::empty(),
                terminated: false,
            }),
            r.context == context,
            r.model().wf(),
    {
        let painted = paint_green_bold("repl> ");
        let r = Self {
            context,
            name: "repl".to_owned(),
            banner: None,
            version: String::new(),
            description: String::new(),
            prompt: ReplPrompt::new(painted.as_str()),
            commands: Vec::new(),
            history: None,
            history_capacity: None,
            quick_completions: true,
            partial_completions: false,
            hinter_enabled: true,
            stop_on_ctrl_c: false,
            stop_on_ctrl_d: true,
            init_commands: Vec::new(),
            terminated: false,
        };
        proof {
            assert(r.model().commands =~= Seq::<CommandModel>::empty());
            assert(r.model().init_commands =~= Seq::<Seq<char>>::empty());
        }
        r
    }

    /// Give the session a name, used in the help summary; the prompt is
    /// re-derived from it as `<name>> ` in bold green.
    pub fn with_name(self, name: &str) -> (r: Self)
        ensures
            r.model() == (ReplModel {
                name: name@,
                prompt: green_bold_of(name@ + "> "@),
                ..self.model()
            }),
            r.context == self.context,
    {
        let mut this = self;
        this.name = name.to_owned();
        this.with_formatted_prompt(name)
    }

    /// Give the session a banner, printed once when the loop starts.
    pub fn with_banner(self, banner: &str) -> (r: Self)
        ensures
            r.model() == (ReplModel { banner: Some(banner@), ..self.model() }),
            r.context == self.context,
    {
        let mut this = self;
        this.banner = Some(banner.to_owned());
        this
    }

    /// Give the session a version, used in the help summary.
    pub fn with_version(self, version: &str) -> (r: Self)
        ensures
            r.model() == (ReplModel { version: version@, ..self.model() }),
            r.context == self.context,
    {
        let mut this = self;
        this.version = version.to_owned();
        this
    }

    /// Give the session a description, used in the help summary.
    pub fn with_description(self, description: &str) -> (r: Self)
        ensures
            r.model() == (ReplModel { description: description@, ..self.model() }),
            r.context == self.context,
    {
        let mut this = self;
        this.description = description.to_owned();
        this
    }

    /// Give the session a file-based history at the given path with the
    /// given capacity. The line-editor collaborator owns the file itself.
    pub fn with_history(self, history_path: &str, capacity: usize) -> (r: Self)
        ensures
            r.model() == (ReplModel {
                history: Some(history_path@),
                history_capacity: Some(capacity),
                ..self.model()
            }),
            r.context == self.context,
    {
        let mut this = self;
        this.history = Some(history_path.to_owned());
        this.history_capacity = Some(capacity);
        this
    }

    /// Give the session a custom prompt, taken as it is.
    pub fn with_prompt(self, prompt: &str) -> (r: Self)
        ensures
            r.model() == (ReplModel { prompt: prompt@, ..self.model() }),
            r.context == self.context,
    {
        let mut this = self;
        this.prompt.update_prefix(prompt);
        this
    }

    /// Give the session a custom prompt, formatted as `<prompt>> ` in bold
    /// green.
    pub fn with_formatted_prompt(self, prompt: &str) -> (r: Self)
        ensures
            r.model() == (ReplModel { prompt: green_bold_of(prompt@ + "> "@), ..self.model() }),
            r.context == self.context,
    {
        let mut this = self;
        let mut text = prompt.to_owned();
        text.append("> ");
        let painted = paint_green_bold(text.as_str());
        this.prompt.update_prefix(painted.as_str());
        this
    }

    /// Turn on/off stopping the loop on an interrupt signal.
    pub fn with_stop_on_ctrl_c(self, stop_on_ctrl_c: bool) -> (r: Self)
        ensures
            r.model() == (ReplModel { stop_on_ctrl_c: stop_on_ctrl_c, ..self.model() }),
            r.context == self.context,
    {
        let mut this = self;
        this.stop_on_ctrl_c = stop_on_ctrl_c;
        this
    }

    /// Turn on/off stopping the loop on end of input.
    pub fn with_stop_on_ctrl_d(self, stop_on_ctrl_d: bool) -> (r: Self)
        ensures
            r.model() == (ReplModel { stop_on_ctrl_d: stop_on_ctrl_d, ..self.model() }),
            r.context == self.context,
    {
        let mut this = self;
        this.stop_on_ctrl_d = stop_on_ctrl_d;
        this
    }

    /// Turn on/off quick completions: the line editor auto-accepts a single
    /// remaining match.
    pub fn with_quick_completions(self, quick_completions: bool) -> (r: Self)
        ensures
            r.model() == (ReplModel { quick_completions: quick_completions, ..self.model() }),
            r.context == self.context,
    {
        let mut this = self;
        this.quick_completions = quick_completions;
        this
    }

    /// Turn on/off partial completions: the line editor fills the longest
    /// common prefix of the remaining matches.
    pub fn with_partial_completions(self, partial_completions: bool) -> (r: Self)
        ensures
            r.model() == (ReplModel { partial_completions: partial_completions, ..self.model() }),
            r.context == self.context,
    {
        let mut this = self;
        this.partial_completions = partial_completions;
        this
    }

    /// Disable the line editor's history hints.
    pub fn with_hinter_disabled(self) -> (r: Self)
        ensures
            r.model() == (ReplModel { hinter_enabled: false, ..self.model() }),
            r.context == self.context,
    {
        let mut this = self;
        this.hinter_enabled = false;
        this
    }

    /// Queue lines that are dispatched through the ordinary path, in the
    /// order given, before interactive reading begins.
    pub fn with_init_commands(self, init_commands: &Vec<String>) -> (r: Self)
        ensures
            r.model() == (ReplModel {
                init_commands: seq_views(init_commands@).reverse(),
                ..self.model()
            }),
            r.context == self.context,
    {
        let ghost target = seq_views(init_commands@).reverse();
        let mut queue: Vec<String> = Vec::new();
        let n = init_commands.len();
        proof {
            assert(seq_views(queue@) =~= target.take(0));
        }
        for i in 0..n
            invariant
                n == init_commands.len(),
                target == seq_views(init_commands@).reverse(),
                seq_views(queue@) == target.take(i as int),
        {
            queue.push(init_commands[n - 1 - i].clone());
            proof {
                assert(target[i as int] == seq_views(init_commands@)[n - 1 - i as int]);
                assert(target.take(i + 1) =~= target.take(i as int).push(target[i as int]));
                assert(seq_views(queue@) =~= target.take(i as int).push(target[i as int]));
            }
        }
        proof {
            assert(target.take(n as int) =~= target);
        }
        let mut this = self;
        this.init_commands = queue;
        this
    }

    /// Add a command served by a blocking callback; a prior command of the
    /// same name is replaced.
    pub fn with_command(self, command: ReplCommand) -> (r: Self)
        requires
            command@.kind == CallbackKind::Sync,
        ensures
            r.model() == (ReplModel {
                commands: spec_register(self.model().commands, command@),
                ..self.model()
            }),
            r.context == self.context,
            self.model().wf() ==> r.model().wf(),
    {
        self.register(command)
    }

    /// Add a command served by a suspendable callback; a prior command of
    /// the same name is replaced.
    pub fn with_command_async(self, command: ReplCommand) -> (r: Self)
        requires
            command@.kind == CallbackKind::Async,
        ensures
            r.model() == (ReplModel {
                commands: spec_register(self.model().commands, command@),
                ..self.model()
            }),
            r.context == self.context,
            self.model().wf() ==> r.model().wf(),
    {
        self.register(command)
    }

    /// Look up a registered command by name.
    pub fn lookup(&self, name: &str) -> (r: Option<&ReplCommand>)
        ensures
            match r {
                Some(c) => spec_lookup(self.model().commands, name@) == Some(c@),
                None => spec_lookup(self.model().commands, name@) is None,
            },
    {
        find_command(&self.commands, name)
    }

    /// All registered commands; each appears exactly once, keyed by its
    /// name.
    pub fn all(&self) -> (r: &Vec<ReplCommand>)
        ensures
            command_models(r@) == self.model().commands,
    {
        &self.commands
    }

    /// Registration shared by both callback kinds: last registration wins.
    fn register(self, command: ReplCommand) -> (r: Self)
        ensures
            r.model() == (ReplModel {
                commands: spec_register(self.model().commands, command@),
                ..self.model()
            }),
            r.context == self.context,
            self.model().wf() ==> r.model().wf(),
    {
        let ghost old_models = command_models(self.commands@);
        let ghost cmd_model = command@;
        let mut this = self;
        let n = this.commands.len();
        for i in 0..n
            invariant
                n == this.commands.len(),
                this == self,
                old_models == command_models(self.commands@),
                cmd_model == command@,
                forall|j: int| 0 <= j < i ==> (#[trigger] old_models[j]).name != cmd_model.name,
        {
            proof {
                assert(old_models[i as int] == this.commands@[i as int]@);
            }
            if str_eq(this.commands[i].name.as_str(), command.name.as_str()) {
                let ghost pre = this.commands@;
                this.commands.remove(i);
                this.commands.insert(i, command);
                proof {
                    assert(this.commands@ =~= pre.update(i as int, command));
                    assert(command_models(this.commands@) =~= old_models.update(
                        i as int,
                        cmd_model,
                    ));
                    lemma_register_found(old_models, cmd_model, i as int);
                    lemma_register_wf_update(self.model(), cmd_model, i as int);
                }
                return this;
            }
        }
        let ghost pre = this.commands@;
        this.commands.push(command);
        proof {
            assert(command_models(this.commands@) =~= old_models.push(cmd_model));
            lemma_register_absent(old_models, cmd_model);
            lemma_register_wf_push(self.model(), cmd_model);
        }
        this
    }
}

/// Replacing a definition under its own name keeps the names unique.
proof fn lemma_register_wf_update(m: ReplModel, c: CommandModel, i: int)
    requires
        0 <= i < m.commands.len(),
        m.commands[i].name == c.name,
    ensures
        m.wf() ==> (ReplModel { commands: m.commands.update(i, c), ..m }).wf(),
{
}

/// Appending a fresh name keeps the names unique.
proof fn lemma_register_wf_push(m: ReplModel, c: CommandModel)
    requires
        forall|j: int| 0 <= j < m.commands.len() ==> (#[trigger] m.commands[j]).name != c.name,
    ensures
        m.wf() ==> (ReplModel { commands: m.commands.push(c), ..m }).wf(),
{
}

/// What the host must do next for one input line, as resolved by the
/// engine.
#[derive(Debug)]
pub enum LineAction {
    /// The line held no tokens: nothing is dispatched.
    Ignored,
    /// The line resolved to the registered command `name`: the host binds
    /// `args` against the command's schema and, on success, runs its
    /// callback (the suspendable one when `is_async` is set).
    Invoke { name: String, args: Vec<String>, is_async: bool },
    /// A built-in `help` line: print `text` to the output stream.
    Help { text: String },
    /// `help` named an unknown command: print `text` to the error stream
    /// and carry on; no dispatch error is raised.
    HelpNotFound { text: String },
    /// A built-in `exit` line: the termination flag is now set.
    Exit,
    /// The command is neither registered nor a built-in: hand `error` to
    /// the session's error handler.
    Unknown { error: Error },
}

/// The mathematical shape of a [`LineAction`].
pub enum ActionModel {
    Ignored,
    Invoke { name: Seq<char>, args: Seq<Seq<char>>, is_async: bool },
    Help { text: Seq<char> },
    HelpNotFound { text: Seq<char> },
    Exit,
    Unknown { error: ErrorModel },
}

impl View for LineAction {
    type V = ActionModel;

    open spec fn view(&self) -> ActionModel {
        match self {
            LineAction::Ignored => ActionModel::Ignored,
            LineAction::Invoke { name, args, is_async } => ActionModel::Invoke {
                name: name@,
                args: seq_views(args@),
                is_async: *is_async,
            },
            LineAction::Help { text } => ActionModel::Help { text: text@ },
            LineAction::HelpNotFound { text } => ActionModel::HelpNotFound { text: text@ },
            LineAction::Exit => ActionModel::Exit,
            LineAction::Unknown { error } => ActionModel::Unknown { error: error@ },
        }
    }
}

/// What the host reports back after acting on a [`LineAction::Invoke`].
#[derive(Debug)]
pub enum InvokeOutcome {
    /// Argument binding failed; the binder printed its own usage
    /// diagnostic, no callback ran.
    BindFailed,
    /// The callback ran and returned its optional output text.
    Success(Option<String>),
    /// The callback ran and returned an error, which the host still holds.
    CallbackFailed,
}

/// The mathematical shape of an [`InvokeOutcome`].
pub enum OutcomeModel {
    BindFailed,
    Success(Option<Seq<char>>),
    CallbackFailed,
}

impl View for InvokeOutcome {
    type V = OutcomeModel;

    open spec fn view(&self) -> OutcomeModel {
        match self {
            InvokeOutcome::BindFailed => OutcomeModel::BindFailed,
            InvokeOutcome::Success(t) => OutcomeModel::Success(opt_view(*t)),
            InvokeOutcome::CallbackFailed => OutcomeModel::CallbackFailed,
        }
    }
}

/// How one invoked line completes: what to print, and whether the
/// post-command hook is due.
#[derive(Debug)]
pub struct FinishAction {
    pub output: Option<String>,
    pub run_hook: bool,
}

/// The mathematical shape of a [`FinishAction`].
pub struct FinishModel {
    pub output: Option<Seq<char>>,
    pub run_hook: bool,
}

impl View for FinishAction {
    type V = FinishModel;

    open spec fn view(&self) -> FinishModel {
        FinishModel { output: opt_view(self.output), run_hook: self.run_hook }
    }
}

/// Resolution of one already-tokenized line: a registered command always
/// wins; otherwise the built-ins `help` and `exit` apply; otherwise the
/// command is unknown.
pub open spec fn spec_resolve_cmd(m: ReplModel, cmd: Seq<char>, args: Seq<Seq<char>>) -> ActionModel {
    match spec_lookup(m.commands, cmd) {
        Some(c) => ActionModel::Invoke { name: cmd, args: args, is_async: c.kind is Async },
        None => if cmd == "help"@ {
            if args.len() == 0 {
                ActionModel::Help {
                    text: spec_help_text(m.name, m.version, m.description, m.commands),
                }
            } else {
                match spec_lookup(m.commands, args[0]) {
                    Some(c) => ActionModel::Help { text: spec_command_help(c) },
                    None => ActionModel::HelpNotFound { text: spec_help_not_found(args[0]) },
                }
            }
        } else if cmd == "exit"@ {
            ActionModel::Exit
        } else {
            ActionModel::Unknown { error: ErrorModel::UnknownCommand(cmd) }
        },
    }
}

/// Resolution of one raw line: an empty token sequence is ignored, else the
/// first token is the command name and the rest are its arguments.
pub open spec fn spec_resolve(m: ReplModel, tokens: Seq<Seq<char>>) -> ActionModel {
    if tokens.len() == 0 {
        ActionModel::Ignored
    } else {
        spec_resolve_cmd(m, tokens[0], tokens.drop_first())
    }
}

/// How resolving one line changes the engine's state: only `exit` changes
/// anything, by setting the termination flag.
pub open spec fn spec_after(m: ReplModel, a: ActionModel) -> ReplModel {
    ReplModel { terminated: m.terminated || a is Exit, ..m }
}

/// How one invoked line completes: the callback's output (if any) is
/// printed, and the hook is due unless argument binding failed.
pub open spec fn spec_finish(o: OutcomeModel) -> FinishModel {
    FinishModel {
        output: match o {
            OutcomeModel::Success(t) => t,
            _ => None,
        },
        run_hook: !(o is BindFailed),
    }
}

impl<C> Repl<C> {
    /// Resolve one already-split command line against the registry,
    /// handling the built-ins `help` and `exit`.
    pub fn handle_command(&mut self, command: &str, args: Vec<String>) -> (a: LineAction)
        ensures
            a@ == spec_resolve_cmd(old(self).model(), command@, seq_views(args@)),
            final(self).model() == spec_after(old(self).model(), a@),
            final(self).context == old(self).context,
    {
        let found_async: bool;
        match find_command(&self.commands, command) {
            Some(c) => {
                found_async = match c.kind {
                    CallbackKind::Async => true,
                    CallbackKind::Sync => false,
                };
            },
            None => {
                if str_eq(command, "help") {
                    if args.len() == 0 {
                        let text = render_help(
                            self.name.as_str(),
                            self.version.as_str(),
                            self.description.as_str(),
                            &self.commands,
                        );
                        return LineAction::Help { text };
                    } else {
                        proof {
                            assert(seq_views(args@)[0] == args@[0]@);
                        }
                        match find_command(&self.commands, args[0].as_str()) {
                            Some(c) => {
                                let text = render_command_help(c);
                                return LineAction::Help { text };
                            },
                            None => {
                                let text = render_help_not_found(args[0].as_str());
                                return LineAction::HelpNotFound { text };
                            },
                        }
                    }
                } else if str_eq(command, "exit") {
                    self.terminated = true;
                    return LineAction::Exit;
                } else {
                    return LineAction::Unknown {
                        error: Error::UnknownCommand(command.to_owned()),
                    };
                }
            },
        }
        LineAction::Invoke { name: command.to_owned(), args, is_async: found_async }
    }

    /// Resolve one raw input line: tokenize it, then dispatch. An empty or
    /// whitespace-only line is ignored.
    pub fn process_line(&mut self, line: &str) -> (a: LineAction)
        ensures
            a@ == spec_resolve(old(self).model(), spec_tokens(line@)),
            final(self).model() == spec_after(old(self).model(), a@),
            final(self).context == old(self).context,
    {
        let mut tokens = tokenize(line);
        if tokens.len() == 0 {
            return LineAction::Ignored;
        }
        let ghost whole = seq_views(tokens@);
        let command = tokens.remove(0);
        proof {
            assert(command@ == whole[0]);
            assert(seq_views(tokens@) =~= whole.drop_first());
        }
        self.handle_command(command.as_str(), tokens)
    }

    /// Complete one invoked line from the host's report: what to print, and
    /// whether the post-command hook is due. The hook is due on callback
    /// success and on callback failure alike, and not due when binding
    /// failed.
    pub fn finish_command(&self, outcome: InvokeOutcome) -> (r: FinishAction)
        ensures
            r@ == spec_finish(outcome@),
    {
        match outcome {
            InvokeOutcome::BindFailed => FinishAction { output: None, run_hook: false },
            InvokeOutcome::Success(t) => FinishAction { output: t, run_hook: true },
            InvokeOutcome::CallbackFailed => FinishAction { output: None, run_hook: true },
        }
    }

    /// Apply the post-command hook's result: a returned text replaces the
    /// prompt; nothing else changes.
    pub fn apply_hook_result(&mut self, new_prompt: Option<String>)
        ensures
            final(self).model() == (ReplModel {
                prompt: match opt_view(new_prompt) {
                    Some(p) => p,
                    None => old(self).model().prompt,
                },
                ..old(self).model()
            }),
            final(self).context == old(self).context,
    {
        match new_prompt {
            Some(p) => self.prompt.update_prefix(p.as_str()),
            None => {},
        }
    }

    /// Take the next queued init line, in the order they were given.
    pub fn take_init_line(&mut self) -> (r: Option<String>)
        ensures
            old(self).model().init_commands.len() == 0 ==> r is None && final(self).model()
                == old(self).model(),
            old(self).model().init_commands.len() > 0 ==> (r matches Some(s) && s@ == old(
                self,
            ).model().init_commands.last() && final(self).model() == (ReplModel {
                init_commands: old(self).model().init_commands.drop_last(),
                ..old(self).model()
            })),
            final(self).context == old(self).context,
    {
        let ghost pre = seq_views(self.init_commands@);
        let r = self.init_commands.pop();
        proof {
            if pre.len() > 0 {
                assert(seq_views(self.init_commands@) =~= pre.drop_last());
                assert(r matches Some(s) && s@ == pre.last());
            }
        }
        r
    }

    /// Whether the session loop must end after the line just processed.
    pub fn should_stop(&self) -> (r: bool)
        ensures
            r == self.model().terminated,
    {
        self.terminated
    }

    /// The loop's decision on an interrupt signal: stop, or ignore it.
    pub fn stops_on_interrupt(&self) -> (r: bool)
        ensures
            r == self.model().stop_on_ctrl_c,
    {
        self.stop_on_ctrl_c
    }

    /// The loop's decision on end of input: stop, or ignore it.
    pub fn stops_on_end_of_input(&self) -> (r: bool)
        ensures
            r == self.model().stop_on_ctrl_d,
    {
        self.stop_on_ctrl_d
    }
}

/// The names of the registered commands, in registry order: the help body
/// renders exactly one line per entry of this sequence.
pub open spec fn help_names(cmds: Seq<CommandModel>) -> Seq<Seq<char>> {
    cmds.map_values(|c: CommandModel| c.name)
}

/// A name looks up to a command exactly when some entry bears it.
proof fn lemma_lookup_some_iff_present(cmds: Seq<CommandModel>, name: Seq<char>)
    ensures
        spec_lookup(cmds, name) is Some <==> exists|i: int|
            0 <= i < cmds.len() && (#[trigger] cmds[i]).name == name,
    decreases cmds.len(),
{
    if cmds.len() > 0 {
        lemma_lookup_some_iff_present(cmds.drop_first(), name);
        if cmds[0].name != name {
            assert forall|i: int|
                0 <= i < cmds.len() && (#[trigger] cmds[i]).name == name implies spec_lookup(
                cmds,
                name,
            ) is Some by {
                assert(cmds.drop_first()[i - 1] == cmds[i]);
            }
            if spec_lookup(cmds, name) is Some {
                let i = choose|i: int|
                    0 <= i < cmds.drop_first().len() && (#[trigger] cmds.drop_first()[i]).name
                        == name;
                assert(cmds[i + 1] == cmds.drop_first()[i]);
            }
        }
    }
}

/// The help summary lists every registered command exactly once, whatever
/// the order of registration: its lines follow [`help_names`], which holds
/// a name exactly when the name is registered, and holds no name twice.
pub proof fn lemma_help_lists_each_command_once(m: ReplModel)
    requires
        m.wf(),
    ensures
        forall|n: Seq<char>| #[trigger]
            help_names(m.commands).contains(n) <==> spec_lookup(m.commands, n) is Some,
        help_names(m.commands).no_duplicates(),
{
    let names = help_names(m.commands);
    assert forall|n: Seq<char>| #[trigger]
        names.contains(n) <==> spec_lookup(m.commands, n) is Some by {
        lemma_lookup_some_iff_present(m.commands, n);
        if spec_lookup(m.commands, n) is Some {
            let i = choose|i: int|
                0 <= i < m.commands.len() && (#[trigger] m.commands[i]).name == n;
            assert(names[i] == n);
        }
        if names.contains(n) {
            let i = choose|i: int| 0 <= i < names.len() && names[i] == n;
            assert(m.commands[i].name == n);
        }
    }
    assert forall|i: int, j: int| 0 <= i < j < names.len() implies names[i] != names[j] by {
        assert(m.commands[i].name != m.commands[j].name);
    }
}

/// Dispatching a line whose command name is neither registered nor a
/// built-in always yields the unknown-command error, and never an
/// invocation: no callback runs for such a line.
pub proof fn lemma_unknown_command(m: ReplModel, name: Seq<char>, args: Seq<Seq<char>>)
    requires
        spec_lookup(m.commands, name) is None,
        name != "help"@,
        name != "exit"@,
    ensures
        spec_resolve_cmd(m, name, args) == (ActionModel::Unknown {
            error: ErrorModel::UnknownCommand(name),
        }),
        !(spec_resolve_cmd(m, name, args) is Invoke),
{
}

/// Whether the per-line protocol makes the post-command hook due: the line
/// must have resolved to a registered command, and binding must not have
/// failed.
pub open spec fn spec_hook_due(m: ReplModel, tokens: Seq<Seq<char>>, outcome: OutcomeModel) -> bool {
    spec_resolve(m, tokens) is Invoke && spec_finish(outcome).run_hook
}

/// The post-command hook runs exactly once per dispatched command line: it
/// is due exactly when the line's first token names a registered command
/// and argument binding did not fail -- so it is due on callback failure
/// too, and never due for `help`, `exit`, unknown or empty lines.
pub proof fn lemma_hook_policy(m: ReplModel, tokens: Seq<Seq<char>>, outcome: OutcomeModel)
    ensures
        spec_hook_due(m, tokens, outcome) <==> (tokens.len() > 0 && spec_lookup(
            m.commands,
            tokens[0],
        ) is Some && !(outcome is BindFailed)),
        !(spec_resolve(m, tokens) is Invoke) ==> !spec_hook_due(m, tokens, outcome),
{
}

/// Round trip of one registered command: dispatching a line that names it
/// yields exactly the invocation of that command; a callback success with
/// output text completes with that text printed and the hook due; and
/// neither step changes the engine's state -- in particular the prompt --
/// so the prompt moves only when a hook returns a new one.
pub proof fn lemma_round_trip(
    m: ReplModel,
    c: CommandModel,
    args: Seq<Seq<char>>,
    text: Seq<char>,
)
    requires
        spec_lookup(m.commands, c.name) == Some(c),
    ensures
        spec_resolve_cmd(m, c.name, args) == (ActionModel::Invoke {
            name: c.name,
            args: args,
            is_async: c.kind is Async,
        }),
        spec_finish(OutcomeModel::Success(Some(text))) == (FinishModel {
            output: Some(text),
            run_hook: true,
        }),
        spec_after(m, spec_resolve_cmd(m, c.name, args)) == m,
{
}

/// Dispatching `exit` terminates the session after the current line, and a
/// second `exit` dispatch is a no-op on the already-terminating state.
pub proof fn lemma_exit_idempotent(m: ReplModel, args: Seq<Seq<char>>)
    requires
        spec_lookup(m.commands, "exit"@) is None,
    ensures
        ({
            let a1 = spec_resolve_cmd(m, "exit"@, args);
            let m1 = spec_after(m, a1);
            let a2 = spec_resolve_cmd(m1, "exit"@, args);
            &&& a1 is Exit
            &&& m1.terminated
            &&& a2 is Exit
            &&& spec_after(m1, a2) == m1
        }),
{
    reveal_strlit("exit");
    reveal_strlit("help");
    assert("exit"@[0] != "help"@[0]);
}

} // verus!

