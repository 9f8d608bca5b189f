//! The tab-completion engine: given the line being edited and the cursor
//! position, produce suggestions from a snapshot of the command registry.
//!
//! Inside the command-name token it offers every registered command name
//! that matches the typed prefix, plus the built-in `help`. After a known
//! command name it offers the allowed values declared for the parameter at
//! the cursor's positional index, and the command's long and short flags.
//! Prefix matching is case sensitive; adjacent suggestions with the same
//! text collapse to one.

use vstd::prelude::*;
use vstd::string::*;

use crate::command::{command_models, CommandModel, ReplCommand};
use crate::parameter::{AllowedValueModel, ParameterModel};
use crate::repl::{find_command, spec_lookup};
use crate::text::{contains_whitespace, is_whitespace_char, is_ws, push_char};
use crate::tokenizer::{seq_views, spec_fields, split_fields};

verus! {

/// A completion suggestion: the replacement text, an optional description,
/// the span of the line it replaces (as character offsets), and whether the
/// line editor should append a space after accepting it.
#[derive(Debug, Clone)]
pub struct Suggestion {
    pub value: String,
    pub description: Option<String>,
    pub span_start: usize,
    pub span_end: usize,
    pub append_whitespace: bool,
}

/// The mathematical shape of a [`Suggestion`].
pub struct SuggestionModel {
    pub value: Seq<char>,
    pub description: Option<Seq<char>>,
    pub span_start: int,
    pub span_end: int,
    pub append_whitespace: bool,
}

impl View for Suggestion {
    type V = SuggestionModel;

    open spec fn view(&self) -> SuggestionModel {
        SuggestionModel {
            value: self.value@,
            description: crate::text::opt_view(self.description),
            span_start: self.span_start as int,
            span_end: self.span_end as int,
            append_whitespace: self.append_whitespace,
        }
    }
}

/// The models of a sequence of suggestions.
pub open spec fn suggestion_models(s: Seq<Suggestion>) -> Seq<SuggestionModel> {
    s.map_values(|x: Suggestion| x@)
}

/// The suggestion offered for one registered command name.
pub open spec fn spec_cmd_suggestion(c: CommandModel, pos: int) -> SuggestionModel {
    SuggestionModel {
        value: c.name,
        description: c.about,
        span_start: 0,
        span_end: pos,
        append_whitespace: true,
    }
}

/// The registered command names matching the typed prefix, in registry
/// order.
pub open spec fn spec_command_suggestions(
    cmds: Seq<CommandModel>,
    prefix: Seq<char>,
    pos: int,
) -> Seq<SuggestionModel>
    decreases cmds.len(),
{
    if cmds.len() == 0 {
        Seq::empty()
    } else {
        (if prefix.is_prefix_of(cmds[0].name) {
            seq![spec_cmd_suggestion(cmds[0], pos)]
        } else {
            Seq::empty()
        }) + spec_command_suggestions(cmds.drop_first(), prefix, pos)
    }
}

/// The suggestion for the built-in `help`.
pub open spec fn spec_builtin_help_suggestion(pos: int) -> SuggestionModel {
    SuggestionModel {
        value: "help"@,
        description: Some("show help"@),
        span_start: 0,
        span_end: pos,
        append_whitespace: true,
    }
}

/// Completion inside the command-name token: every matching registered
/// command, plus the built-in `help` when it matches.
pub open spec fn spec_commands_starting_with(
    cmds: Seq<CommandModel>,
    prefix: Seq<char>,
    pos: int,
) -> Seq<SuggestionModel> {
    spec_command_suggestions(cmds, prefix, pos) + (if prefix.is_prefix_of("help"@) {
        seq![spec_builtin_help_suggestion(pos)]
    } else {
        Seq::empty()
    })
}

/// The suggestion offered for one allowed value of a parameter.
pub open spec fn spec_value_suggestion(
    av: AllowedValueModel,
    start: int,
    pos: int,
) -> SuggestionModel {
    SuggestionModel {
        value: av.0,
        description: av.1,
        span_start: start,
        span_end: pos,
        append_whitespace: true,
    }
}

/// The allowed values matching the typed prefix, in declaration order.
pub open spec fn spec_value_suggestions(
    avs: Seq<AllowedValueModel>,
    prefix: Seq<char>,
    start: int,
    pos: int,
) -> Seq<SuggestionModel>
    decreases avs.len(),
{
    if avs.len() == 0 {
        Seq::empty()
    } else {
        (if prefix.is_prefix_of(avs[0].0) {
            seq![spec_value_suggestion(avs[0], start, pos)]
        } else {
            Seq::empty()
        }) + spec_value_suggestions(avs.drop_first(), prefix, start, pos)
    }
}

/// The long-flag and short-flag suggestions of one parameter that match
/// the typed prefix: `--name`, then `-x` when a short letter is declared.
pub open spec fn spec_param_flags(
    p: ParameterModel,
    prefix: Seq<char>,
    start: int,
    pos: int,
) -> Seq<SuggestionModel> {
    (if prefix.is_prefix_of("--"@ + p.name) {
        seq![
            SuggestionModel {
                value: "--"@ + p.name,
                description: p.help_summary,
                span_start: start,
                span_end: pos,
                append_whitespace: true,
            },
        ]
    } else {
        Seq::empty()
    }) + (match p.short {
        Some(ch) => if prefix.is_prefix_of("-"@ + seq![ch]) {
            seq![
                SuggestionModel {
                    value: "-"@ + seq![ch],
                    description: p.help_summary,
                    span_start: start,
                    span_end: pos,
                    append_whitespace: true,
                },
            ]
        } else {
            Seq::empty()
        },
        None => Seq::empty(),
    })
}

/// The flag suggestions of a whole schema, in schema order.
pub open spec fn spec_flag_suggestions(
    params: Seq<ParameterModel>,
    prefix: Seq<char>,
    start: int,
    pos: int,
) -> Seq<SuggestionModel>
    decreases params.len(),
{
    if params.len() == 0 {
        Seq::empty()
    } else {
        spec_param_flags(params[0], prefix, start, pos) + spec_flag_suggestions(
            params.drop_first(),
            prefix,
            start,
            pos,
        )
    }
}

/// Completion after a known command name: the allowed values of the
/// parameter at the cursor's positional index (none when the index is
/// outside the schema), then the command's flags.
pub open spec fn spec_parameter_suggestions(
    c: CommandModel,
    idx: int,
    prefix: Seq<char>,
    start: int,
    pos: int,
) -> Seq<SuggestionModel> {
    (if 0 <= idx < c.parameters.len() {
        spec_value_suggestions(c.parameters[idx].allowed_values, prefix, start, pos)
    } else {
        Seq::empty()
    }) + spec_flag_suggestions(c.parameters, prefix, start, pos)
}

/// Adjacent suggestions with the same text collapse to the first of the
/// run.
pub open spec fn spec_dedup(s: Seq<SuggestionModel>) -> Seq<SuggestionModel>
    decreases s.len(),
{
    if s.len() <= 1 {
        s
    } else {
        let init = spec_dedup(s.drop_last());
        if s[s.len() - 2].value == s[s.len() - 1].value {
            init
        } else {
            init.push(s.last())
        }
    }
}

/// The completion of a line at a cursor position, before deduplication.
pub open spec fn spec_complete_raw(
    cmds: Seq<CommandModel>,
    upto: Seq<char>,
    pos: int,
) -> Seq<SuggestionModel> {
    if forall|k: int| 0 <= k < upto.len() ==> !is_ws(#[trigger] upto[k]) {
        spec_commands_starting_with(cmds, upto, pos)
    } else {
        let pieces = spec_fields(upto);
        if pieces.len() == 0 {
            Seq::empty()
        } else {
            match spec_lookup(cmds, pieces[0]) {
                None => Seq::empty(),
                Some(c) => if is_ws(upto.last()) {
                    spec_parameter_suggestions(c, pieces.len() - 1, Seq::empty(), pos, pos)
                } else {
                    spec_parameter_suggestions(
                        c,
                        pieces.len() - 2,
                        pieces.last(),
                        pos - pieces.last().len(),
                        pos,
                    )
                },
            }
        }
    }
}

/// The completion of a line at a cursor position: only the line up to the
/// cursor matters, and adjacent textual duplicates collapse.
pub open spec fn spec_complete(
    cmds: Seq<CommandModel>,
    line: Seq<char>,
    pos: int,
) -> Seq<SuggestionModel> {
    spec_dedup(spec_complete_raw(cmds, line.take(pos), pos))
}

/// Appending a command to the list appends its suggestion, if it matches.
proof fn lemma_command_suggestions_push(
    cmds: Seq<CommandModel>,
    x: CommandModel,
    prefix: Seq<char>,
    pos: int,
)
    ensures
        spec_command_suggestions(cmds.push(x), prefix, pos) == spec_command_suggestions(
            cmds,
            prefix,
            pos,
        ) + (if prefix.is_prefix_of(x.name) {
            seq![spec_cmd_suggestion(x, pos)]
        } else {
            Seq::<SuggestionModel>::empty()
        }),
    decreases cmds.len(),
{
    reveal_with_fuel(spec_command_suggestions, 3);
    if cmds.len() == 0 {
        assert(cmds.push(x).drop_first() =~= Seq::<CommandModel>::empty());
        assert(spec_command_suggestions(cmds.push(x), prefix, pos) =~= spec_command_suggestions(
            cmds,
            prefix,
            pos,
        ) + (if prefix.is_prefix_of(x.name) {
            seq![spec_cmd_suggestion(x, pos)]
        } else {
            Seq::<SuggestionModel>::empty()
        }));
    } else {
        lemma_command_suggestions_push(cmds.drop_first(), x, prefix, pos);
        assert(cmds.push(x).drop_first() =~= cmds.drop_first().push(x));
        assert(cmds.push(x)[0] == cmds[0]);
        assert(spec_command_suggestions(cmds.push(x), prefix, pos) =~= spec_command_suggestions(
            cmds,
            prefix,
            pos,
        ) + (if prefix.is_prefix_of(x.name) {
            seq![spec_cmd_suggestion(x, pos)]
        } else {
            Seq::<SuggestionModel>::empty()
        }));
    }
}

/// Appending an allowed value appends its suggestion, if it matches.
proof fn lemma_value_suggestions_push(
    avs: Seq<AllowedValueModel>,
    x: AllowedValueModel,
    prefix: Seq<char>,
    start: int,
    pos: int,
)
    ensures
        spec_value_suggestions(avs.push(x), prefix, start, pos) == spec_value_suggestions(
            avs,
            prefix,
            start,
            pos,
        ) + (if prefix.is_prefix_of(x.0) {
            seq![spec_value_suggestion(x, start, pos)]
        } else {
            Seq::<SuggestionModel>::empty()
        }),
    decreases avs.len(),
{
    reveal_with_fuel(spec_value_suggestions, 3);
    if avs.len() == 0 {
        assert(avs.push(x).drop_first() =~= Seq::<AllowedValueModel>::empty());
        assert(spec_value_suggestions(avs.push(x), prefix, start, pos) =~= spec_value_suggestions(
            avs,
            prefix,
            start,
            pos,
        ) + (if prefix.is_prefix_of(x.0) {
            seq![spec_value_suggestion(x, start, pos)]
        } else {
            Seq::<SuggestionModel>::empty()
        }));
    } else {
        lemma_value_suggestions_push(avs.drop_first(), x, prefix, start, pos);
        assert(avs.push(x).drop_first() =~= avs.drop_first().push(x));
        assert(avs.push(x)[0] == avs[0]);
        assert(spec_value_suggestions(avs.push(x), prefix, start, pos) =~= spec_value_suggestions(
            avs,
            prefix,
            start,
            pos,
        ) + (if prefix.is_prefix_of(x.0) {
            seq![spec_value_suggestion(x, start, pos)]
        } else {
            Seq::<SuggestionModel>::empty()
        }));
    }
}

/// Appending a parameter appends its flag suggestions.
proof fn lemma_flag_suggestions_push(
    params: Seq<ParameterModel>,
    x: ParameterModel,
    prefix: Seq<char>,
    start: int,
    pos: int,
)
    ensures
        spec_flag_suggestions(params.push(x), prefix, start, pos) == spec_flag_suggestions(
            params,
            prefix,
            start,
            pos,
        ) + spec_param_flags(x, prefix, start, pos),
    decreases params.len(),
{
    reveal_with_fuel(spec_flag_suggestions, 3);
    if params.len() == 0 {
        assert(params.push(x).drop_first() =~= Seq::<ParameterModel>::empty());
        assert(spec_flag_suggestions(params.push(x), prefix, start, pos) =~= spec_flag_suggestions(
            params,
            prefix,
            start,
            pos,
        ) + spec_param_flags(x, prefix, start, pos));
    } else {
        lemma_flag_suggestions_push(params.drop_first(), x, prefix, start, pos);
        assert(params.push(x).drop_first() =~= params.drop_first().push(x));
        assert(params.push(x)[0] == params[0]);
        assert(spec_flag_suggestions(params.push(x), prefix, start, pos) =~= spec_flag_suggestions(
            params,
            prefix,
            start,
            pos,
        ) + spec_param_flags(x, prefix, start, pos));
    }
}

/// An element-wise copy of a suggestion.
fn duplicate_suggestion(s: &Suggestion) -> (r: Suggestion)
    ensures
        r@ == s@,
{
    Suggestion {
        value: s.value.clone(),
        description: match &s.description {
            Some(d) => Some(d.clone()),
            None => None,
        },
        span_start: s.span_start,
        span_end: s.span_end,
        append_whitespace: s.append_whitespace,
    }
}

/// Collapses adjacent suggestions with the same text, keeping the first of
/// each run.
fn dedup_suggestions(v: &Vec<Suggestion>) -> (r: Vec<Suggestion>)
    ensures
        suggestion_models(r@) == spec_dedup(suggestion_models(v@)),
{
    let ghost s = suggestion_models(v@);
    let mut out: Vec<Suggestion> = Vec::new();
    let n = v.len();
    proof {
        assert(s.take(0) =~= Seq::<SuggestionModel>::empty());
        assert(suggestion_models(out@) =~= spec_dedup(s.take(0)));
    }
    for i in 0..n
        invariant
            n == v.len(),
            s == suggestion_models(v@),
            suggestion_models(out@) == spec_dedup(s.take(i as int)),
    {
        proof {
            assert(s.take(i + 1).drop_last() =~= s.take(i as int));
            assert(s.take(i + 1).last() == s[i as int]);
            if i > 0 {
                assert(s.take(i + 1)[i - 1] == s[i - 1]);
            }
        }
        if i > 0 && crate::text::str_eq(v[i - 1].value.as_str(), v[i].value.as_str()) {
            proof {
                assert(spec_dedup(s.take(i + 1)) == spec_dedup(s.take(i as int)));
            }
        } else {
            out.push(duplicate_suggestion(&v[i]));
            proof {
                if i == 0 {
                    assert(spec_dedup(s.take(1)) =~= s.take(1));
                    assert(s.take(1) =~= Seq::<SuggestionModel>::empty().push(s[0]));
                    assert(suggestion_models(out@) =~= spec_dedup(s.take(1)));
                } else {
                    assert(spec_dedup(s.take(i + 1)) == spec_dedup(s.take(i as int)).push(
                        s[i as int],
                    ));
                    assert(suggestion_models(out@) =~= spec_dedup(s.take(i as int)).push(
                        s[i as int],
                    ));
                }
            }
        }
    }
    proof {
        assert(s.take(n as int) =~= s);
    }
    out
}

/// The completion engine: a snapshot of the command registry taken when
/// the session loop starts.
pub struct ReplCompleter {
    pub commands: Vec<ReplCommand>,
}

impl ReplCompleter {
    /// The registry snapshot's model.
    pub open spec fn model(&self) -> Seq<CommandModel> {
        command_models(self.commands@)
    }

    /// Takes a snapshot of the given command registry.
    pub fn new(repl_commands: &Vec<ReplCommand>) -> (r: Self)
        ensures
            r.model() == command_models(repl_commands@),
    {
        let ghost target = command_models(repl_commands@);
        let mut commands: Vec<ReplCommand> = Vec::new();
        let n = repl_commands.len();
        proof {
            assert(command_models(commands@) =~= target.take(0));
        }
        for i in 0..n
            invariant
                n == repl_commands.len(),
                target == command_models(repl_commands@),
                command_models(commands@) == target.take(i as int),
        {
            commands.push(repl_commands[i].duplicate());
            proof {
                assert(target.take(i + 1) =~= target.take(i as int).push(target[i as int]));
                assert(command_models(commands@) =~= target.take(i as int).push(target[i as int]));
            }
        }
        proof {
            assert(target.take(n as int) =~= target);
        }
        ReplCompleter { commands }
    }

    /// Completion inside the command-name token: every registered command
    /// name matching the prefix, plus the built-in `help` when it matches.
    pub fn commands_starting_with(&self, prefix: &str, pos: usize) -> (r: Vec<Suggestion>)
        ensures
            suggestion_models(r@) == spec_commands_starting_with(self.model(), prefix@, pos as int),
    {
        let ghost models = self.model();
        let mut out: Vec<Suggestion> = Vec::new();
        let n = self.commands.len();
        proof {
            assert(models.take(0) =~= Seq::<CommandModel>::empty());
            assert(suggestion_models(out@) =~= spec_command_suggestions(
                models.take(0),
                prefix@,
                pos as int,
            ));
        }
        for i in 0..n
            invariant
                n == self.commands.len(),
                models == self.model(),
                suggestion_models(out@) == spec_command_suggestions(
                    models.take(i as int),
                    prefix@,
                    pos as int,
                ),
        {
            let c = &self.commands[i];
            proof {
                assert(models[i as int] == c@);
                assert(models.take(i + 1) =~= models.take(i as int).push(models[i as int]));
                lemma_command_suggestions_push(models.take(i as int), c@, prefix@, pos as int);
            }
            if crate::text::str_starts_with(c.name.as_str(), prefix) {
                let sug = Suggestion {
                    value: c.name.clone(),
                    description: match &c.about {
                        Some(a) => Some(a.clone()),
                        None => None,
                    },
                    span_start: 0,
                    span_end: pos,
                    append_whitespace: true,
                };
                out.push(sug);
                proof {
                    assert(suggestion_models(out@) =~= spec_command_suggestions(
                        models.take(i as int),
                        prefix@,
                        pos as int,
                    ).push(spec_cmd_suggestion(models[i as int], pos as int)));
                    assert(spec_command_suggestions(models.take(i + 1), prefix@, pos as int)
                        =~= spec_command_suggestions(models.take(i as int), prefix@, pos as int)
                        + seq![spec_cmd_suggestion(models[i as int], pos as int)]);
                }
            } else {
                proof {
                    assert(spec_command_suggestions(models.take(i + 1), prefix@, pos as int)
                        =~= spec_command_suggestions(models.take(i as int), prefix@, pos as int));
                }
            }
        }
        proof {
            assert(models.take(n as int) =~= models);
        }
        if crate::text::str_starts_with("help", prefix) {
            let sug = Suggestion {
                value: "help".to_owned(),
                description: Some("show help".to_owned()),
                span_start: 0,
                span_end: pos,
                append_whitespace: true,
            };
            out.push(sug);
            proof {
                assert(suggestion_models(out@) =~= spec_command_suggestions(
                    models,
                    prefix@,
                    pos as int,
                ).push(spec_builtin_help_suggestion(pos as int)));
                assert(spec_commands_starting_with(models, prefix@, pos as int)
                    =~= spec_command_suggestions(models, prefix@, pos as int).push(
                    spec_builtin_help_suggestion(pos as int),
                ));
            }
        } else {
            proof {
                assert(spec_commands_starting_with(models, prefix@, pos as int)
                    =~= spec_command_suggestions(models, prefix@, pos as int));
            }
        }
        out
    }

    /// Completion after a known command name: the allowed values declared
    /// for the parameter at the given positional index, then the command's
    /// long and short flags, all filtered by the typed prefix.
    pub fn parameter_values_starting_with(
        &self,
        command: &ReplCommand,
        parameter_idx: usize,
        prefix: &str,
        start: usize,
        pos: usize,
    ) -> (r: Vec<Suggestion>)
        ensures
            suggestion_models(r@) == spec_parameter_suggestions(
                command@,
                parameter_idx as int,
                prefix@,
                start as int,
                pos as int,
            ),
    {
        let ghost cm = command@;
        let mut out: Vec<Suggestion> = Vec::new();
        if parameter_idx < command.parameters.len() {
            let p = &command.parameters[parameter_idx];
            let ghost avs = p@.allowed_values;
            let m = p.allowed_values.len();
            proof {
                assert(cm.parameters[parameter_idx as int] == p@);
                assert(avs.take(0) =~= Seq::<AllowedValueModel>::empty());
                assert(suggestion_models(out@) =~= spec_value_suggestions(
                    avs.take(0),
                    prefix@,
                    start as int,
                    pos as int,
                ));
            }
            for k in 0..m
                invariant
                    m == p.allowed_values.len(),
                    avs == p@.allowed_values,
                    suggestion_models(out@) == spec_value_suggestions(
                        avs.take(k as int),
                        prefix@,
                        start as int,
                        pos as int,
                    ),
            {
                proof {
                    assert(avs[k as int] == (p.allowed_values@[k as int].0@, crate::text::opt_view(
                        p.allowed_values@[k as int].1,
                    )));
                    assert(avs.take(k + 1) =~= avs.take(k as int).push(avs[k as int]));
                    lemma_value_suggestions_push(
                        avs.take(k as int),
                        avs[k as int],
                        prefix@,
                        start as int,
                        pos as int,
                    );
                }
                if crate::text::str_starts_with(p.allowed_values[k].0.as_str(), prefix) {
                    let sug = Suggestion {
                        value: p.allowed_values[k].0.clone(),
                        description: match &p.allowed_values[k].1 {
                            Some(h) => Some(h.clone()),
                            None => None,
                        },
                        span_start: start,
                        span_end: pos,
                        append_whitespace: true,
                    };
                    out.push(sug);
                    proof {
                        assert(suggestion_models(out@) =~= spec_value_suggestions(
                            avs.take(k as int),
                            prefix@,
                            start as int,
                            pos as int,
                        ).push(spec_value_suggestion(avs[k as int], start as int, pos as int)));
                        assert(spec_value_suggestions(
                            avs.take(k + 1),
                            prefix@,
                            start as int,
                            pos as int,
                        ) =~= spec_value_suggestions(
                            avs.take(k as int),
                            prefix@,
                            start as int,
                            pos as int,
                        ).push(spec_value_suggestion(avs[k as int], start as int, pos as int)));
                    }
                } else {
                    proof {
                        assert(spec_value_suggestions(
                            avs.take(k + 1),
                            prefix@,
                            start as int,
                            pos as int,
                        ) =~= spec_value_suggestions(
                            avs.take(k as int),
                            prefix@,
                            start as int,
                            pos as int,
                        ));
                    }
                }
            }
            proof {
                assert(avs.take(m as int) =~= avs);
            }
        } else {
            proof {
                assert(suggestion_models(out@) =~= Seq::<SuggestionModel>::empty());
            }
        }
        let ghost values_part = suggestion_models(out@);
        let ghost params = cm.parameters;
        let n = command.parameters.len();
        proof {
            assert(params.take(0) =~= Seq::<ParameterModel>::empty());
            assert(suggestion_models(out@) =~= values_part + spec_flag_suggestions(
                params.take(0),
                prefix@,
                start as int,
                pos as int,
            ));
        }
        for i in 0..n
            invariant
                n == command.parameters.len(),
                params == command@.parameters,
                suggestion_models(out@) == values_part + spec_flag_suggestions(
                    params.take(i as int),
                    prefix@,
                    start as int,
                    pos as int,
                ),
        {
            let p = &command.parameters[i];
            proof {
                assert(params[i as int] == p@);
                assert(params.take(i + 1) =~= params.take(i as int).push(params[i as int]));
                lemma_flag_suggestions_push(
                    params.take(i as int),
                    params[i as int],
                    prefix@,
                    start as int,
                    pos as int,
                );
            }
            let ghost before_long = suggestion_models(out@);
            let mut long = String::new();
            long.append("--");
            long.append(p.name.as_str());
            if crate::text::str_starts_with(long.as_str(), prefix) {
                let sug = Suggestion {
                    value: long,
                    description: match &p.help_summary {
                        Some(h) => Some(h.clone()),
                        None => None,
                    },
                    span_start: start,
                    span_end: pos,
                    append_whitespace: true,
                };
                out.push(sug);
            }
            match p.short {
                Some(ch) => {
                    let mut shortflag = String::new();
                    shortflag.append("-");
                    push_char(&mut shortflag, ch);
                    proof {
                        assert(shortflag@ =~= "-"@ + seq![ch]);
                    }
                    if crate::text::str_starts_with(shortflag.as_str(), prefix) {
                        let sug = Suggestion {
                            value: shortflag,
                            description: match &p.help_summary {
                                Some(h) => Some(h.clone()),
                                None => None,
                            },
                            span_start: start,
                            span_end: pos,
                            append_whitespace: true,
                        };
                        out.push(sug);
                    }
                },
                None => {},
            }
            proof {
                assert(suggestion_models(out@) =~= before_long + spec_param_flags(
                    params[i as int],
                    prefix@,
                    start as int,
                    pos as int,
                ));
                assert(suggestion_models(out@) =~= values_part + spec_flag_suggestions(
                    params.take(i + 1),
                    prefix@,
                    start as int,
                    pos as int,
                ));
            }
        }
        proof {
            assert(params.take(n as int) =~= params);
        }
        out
    }

    /// Completion of the line at the cursor position. Inside the first
    /// token, registered commands and `help` are offered; after a known
    /// command, its declared values and flags; after an unknown command,
    /// nothing.
    pub fn complete(&self, line: &str, pos: usize) -> (r: Vec<Suggestion>)
        requires
            pos <= line@.len(),
        ensures
            suggestion_models(r@) == spec_complete(self.model(), line@, pos as int),
    {
        let upto = line.substring_char(0, pos);
        let ghost u = line@.take(pos as int);
        proof {
            assert(upto@ =~= u);
        }
        let raw: Vec<Suggestion>;
        if !contains_whitespace(upto) {
            raw = self.commands_starting_with(upto, pos);
        } else {
            let fields = split_fields(upto);
            proof {
                assert(seq_views(fields@) == spec_fields(u));
            }
            if fields.len() == 0 {
                raw = Vec::new();
                proof {
                    assert(suggestion_models(raw@) =~= Seq::<SuggestionModel>::empty());
                }
            } else {
                proof {
                    assert(seq_views(fields@)[0] == fields@[0]@);
                }
                match find_command(&self.commands, fields[0].as_str()) {
                    None => {
                        raw = Vec::new();
                        proof {
                            assert(suggestion_models(raw@) =~= Seq::<SuggestionModel>::empty());
                        }
                    },
                    Some(c) => {
                        let un = upto.unicode_len();
                        if is_whitespace_char(upto.get_char(un - 1)) {
                            proof {
                                reveal_strlit("");
                                assert(""@ =~= Seq::<char>::empty());
                            }
                            raw = self.parameter_values_starting_with(
                                c,
                                fields.len() - 1,
                                "",
                                pos,
                                pos,
                            );
                        } else {
                            let last_idx = fields.len() - 1;
                            proof {
                                assert(seq_views(fields@)[last_idx as int] == fields@[
                                    last_idx as int
                                ]@);
                                assert(spec_fields(u).last() == fields@[last_idx as int]@);
                            }
                            let prefix = &fields[last_idx];
                            let plen = prefix.unicode_len();
                            if fields.len() >= 2 {
                                raw = self.parameter_values_starting_with(
                                    c,
                                    fields.len() - 2,
                                    prefix.as_str(),
                                    pos - plen,
                                    pos,
                                );
                            } else {
                                let oob = c.parameters.len();
                                raw = self.parameter_values_starting_with(
                                    c,
                                    oob,
                                    prefix.as_str(),
                                    pos - plen,
                                    pos,
                                );
                                proof {
                                    assert(spec_parameter_suggestions(
                                        c@,
                                        oob as int,
                                        fields@[last_idx as int]@,
                                        pos - plen,
                                        pos as int,
                                    ) == spec_parameter_suggestions(
                                        c@,
                                        spec_fields(u).len() - 2,
                                        spec_fields(u).last(),
                                        pos - plen,
                                        pos as int,
                                    ));
                                }
                            }
                        }
                    },
                }
            }
        }
        dedup_suggestions(&raw)
    }
}

} // verus!
