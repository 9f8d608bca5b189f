//! A command definition: a unique name, an ordered argument schema, an
//! optional one-line description, and the kind of callback the host
//! registered for it.
//!
//! The callback itself (a host function over the host's context type) never
//! enters the engine: the engine resolves a line to a command and hands the
//! host an invocation request carrying the command's name; the host keeps
//! the callbacks and runs the matching one.

use vstd::prelude::*;
use vstd::string::*;

use crate::parameter::{Parameter, ParameterModel};
use crate::text::opt_view;

verus! {

/// Which execution path a command's callback takes: blocking, or
/// suspendable (allowed to yield to the host's scheduler).
#[derive(PartialEq, Eq, Structural, Clone, Copy, Debug)]
pub enum CallbackKind {
    Sync,
    Async,
}

/// A command in the registry.
#[derive(Debug)]
pub struct ReplCommand {
    pub name: String,
    pub about: Option<String>,
    pub parameters: Vec<Parameter>,
    pub kind: CallbackKind,
}

/// The mathematical shape of a [`ReplCommand`].
pub struct CommandModel {
    pub name: Seq<char>,
    pub about: Option<Seq<char>>,
    pub parameters: Seq<ParameterModel>,
    pub kind: CallbackKind,
}

/// The models of a sequence of parameters.
pub open spec fn parameter_models(s: Seq<Parameter>) -> Seq<ParameterModel> {
    s.map_values(|p: Parameter| p@)
}

/// The models of a sequence of commands.
pub open spec fn command_models(s: Seq<ReplCommand>) -> Seq<CommandModel> {
    s.map_values(|c: ReplCommand| c@)
}

impl View for ReplCommand {
    type V = CommandModel;

    open spec fn view(&self) -> CommandModel {
        CommandModel {
            name: self.name@,
            about: opt_view(self.about),
            parameters: parameter_models(self.parameters@),
            kind: self.kind,
        }
    }
}

impl CommandModel {
    /// Every parameter of the schema is well formed.
    pub open spec fn wf(&self) -> bool {
        forall|i: int| 0 <= i < self.parameters.len() ==> (#[trigger] self.parameters[i]).wf()
    }
}

impl ReplCommand {
    /// Create a new command with the given name, to be served by a blocking
    /// callback of the host.
    pub fn new(name: &str) -> (r: Self)
        ensures
            r@ == (CommandModel {
                name: name@,
                about: None,
                parameters: Seq::empty(),
                kind: CallbackKind::Sync,
            }),
            r@.wf(),
    {
        let r = Self { name: name.to_owned(), about: None, parameters: Vec::new(), kind: CallbackKind::Sync };
        proof {
            assert(r@.parameters =~= Seq::<ParameterModel>::empty());
        }
        r
    }

    /// Create a new command with the given name, to be served by a
    /// suspendable callback of the host.
    pub fn new_async(name: &str) -> (r: Self)
        ensures
            r@ == (CommandModel {
                name: name@,
                about: None,
                parameters: Seq::empty(),
                kind: CallbackKind::Async,
            }),
            r@.wf(),
    {
        let r = Self { name: name.to_owned(), about: None, parameters: Vec::new(), kind: CallbackKind::Async };
        proof {
            assert(r@.parameters =~= Seq::<ParameterModel>::empty());
        }
        r
    }

    /// Set the one-line description used by `help` and by completion.
    pub fn with_about(self, about: &str) -> (r: Self)
        ensures
            r@ == (CommandModel { about: Some(about@), ..self@ }),
            self@.wf() ==> r@.wf(),
    {
        Self { about: Some(about.to_owned()), ..self }
    }

    /// Append a parameter to the command's argument schema.
    pub fn with_parameter(self, parameter: Parameter) -> (r: Self)
        ensures
            r@ == (CommandModel { parameters: self@.parameters.push(parameter@), ..self@ }),
            self@.wf() && parameter@.wf() ==> r@.wf(),
    {
        let mut this = self;
        this.parameters.push(parameter);
        proof {
            assert(this@.parameters =~= self@.parameters.push(parameter@));
        }
        this
    }

    /// An element-wise copy of the command definition.
    pub fn duplicate(&self) -> (r: Self)
        ensures
            r@ == self@,
    {
        let mut params: Vec<Parameter> = Vec::new();
        let n = self.parameters.len();
        proof {
            assert(parameter_models(params@) =~= self@.parameters.take(0));
        }
        for i in 0..n
            invariant
                n == self.parameters.len(),
                parameter_models(params@) == self@.parameters.take(i as int),
        {
            params.push(self.parameters[i].duplicate());
            proof {
                assert(self@.parameters.take(i + 1) =~= self@.parameters.take(i as int).push(
                    self@.parameters[i as int],
                ));
                assert(parameter_models(params@) =~= self@.parameters.take(i as int).push(
                    self@.parameters[i as int],
                ));
            }
        }
        let r = Self {
            name: self.name.clone(),
            about: match &self.about {
                Some(a) => Some(a.clone()),
                None => None,
            },
            parameters: params,
            kind: self.kind,
        };
        proof {
            assert(self@.parameters.take(n as int) =~= self@.parameters);
        }
        r
    }
}

impl PartialEq for ReplCommand {
    /// A command is identified by its name alone.
    fn eq(&self, other: &ReplCommand) -> (r: bool) {
        crate::text::str_eq(self.name.as_str(), other.name.as_str())
    }
}

impl vstd::std_specs::cmp::PartialEqSpecImpl for ReplCommand {
    open spec fn obeys_eq_spec() -> bool {
        true
    }

    open spec fn eq_spec(&self, other: &ReplCommand) -> bool {
        self.name@ == other.name@
    }
}

} // verus!
