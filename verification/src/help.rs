//! Rendering of the built-in `help` command: the composite summary over
//! every registered command, and the detailed usage of a single command.

use vstd::prelude::*;
use vstd::string::*;

use crate::command::{command_models, CommandModel, ReplCommand};
use crate::parameter::ParameterModel;
use crate::{green_bold_of, paint_green_bold, paint_yellow_bold, yellow_bold_of};

verus! {

/// One line of the composite help summary: the command's name, then its
/// one-line description if it has one.
pub open spec fn spec_help_line(c: CommandModel) -> Seq<char> {
    "    "@ + c.name + (match c.about {
        Some(a) => "    "@ + a,
        None => Seq::<char>::empty(),
    }) + "\n"@
}

/// The body of the composite help summary: one line per registered command,
/// in registry order.
pub open spec fn spec_help_body(cmds: Seq<CommandModel>) -> Seq<char> {
    cmds.map_values(|c: CommandModel| spec_help_line(c)).flatten()
}

/// The whole composite help summary: a header with the session's name (in
/// bold green), version and description, then the command list under a bold
/// yellow heading.
pub open spec fn spec_help_text(
    name: Seq<char>,
    version: Seq<char>,
    description: Seq<char>,
    cmds: Seq<CommandModel>,
) -> Seq<char> {
    green_bold_of(name) + " "@ + version + "\n"@ + description + "\n\n"@ + yellow_bold_of(
        "COMMANDS:"@,
    ) + "\n"@ + spec_help_body(cmds)
}

/// How one parameter appears on a usage line: angle brackets for a required
/// parameter, square brackets for an optional one.
pub open spec fn spec_usage_token(p: ParameterModel) -> Seq<char> {
    if p.required {
        " <"@ + p.name + ">"@
    } else {
        " ["@ + p.name + "]"@
    }
}

/// One line of the argument list: the parameter's name, then its help text
/// if it has one.
pub open spec fn spec_arg_line(p: ParameterModel) -> Seq<char> {
    "    "@ + p.name + (match p.help_summary {
        Some(h) => "    "@ + h,
        None => Seq::<char>::empty(),
    }) + "\n"@
}

/// The detailed usage of one command: its name and description, a usage
/// line over its schema, and the argument list if the schema is not empty.
pub open spec fn spec_command_help(c: CommandModel) -> Seq<char> {
    c.name + "\n"@ + (match c.about {
        Some(a) => a + "\n"@,
        None => Seq::<char>::empty(),
    }) + "\nUSAGE:\n    "@ + c.name + c.parameters.map_values(
        |p: ParameterModel| spec_usage_token(p),
    ).flatten() + "\n"@ + (if c.parameters.len() == 0 {
        Seq::<char>::empty()
    } else {
        "\nARGS:\n"@ + c.parameters.map_values(|p: ParameterModel| spec_arg_line(p)).flatten()
    })
}

/// The diagnostic printed when `help` is asked about an unknown command.
pub open spec fn spec_help_not_found(topic: Seq<char>) -> Seq<char> {
    "Help not found for command '"@ + topic + "'"@
}

/// Renders one line of the composite help summary.
fn help_line(c: &ReplCommand) -> (r: String)
    ensures
        r@ == spec_help_line(c@),
{
    let mut out = String::new();
    out.append("    ");
    out.append(c.name.as_str());
    match &c.about {
        Some(a) => {
            out.append("    ");
            out.append(a.as_str());
        },
        None => {},
    }
    out.append("\n");
    proof {
        assert(out@ =~= spec_help_line(c@));
    }
    out
}

/// Renders the composite help summary over every registered command.
pub fn render_help(
    name: &str,
    version: &str,
    description: &str,
    commands: &Vec<ReplCommand>,
) -> (r: String)
    ensures
        r@ == spec_help_text(name@, version@, description@, command_models(commands@)),
{
    let ghost models = command_models(commands@);
    let mut body = String::new();
    let n = commands.len();
    proof {
        assert(models.take(0).map_values(|c: CommandModel| spec_help_line(c)) =~= Seq::<
            Seq<char>,
        >::empty());
        assert(body@ =~= spec_help_body(models.take(0)));
    }
    for i in 0..n
        invariant
            n == commands.len(),
            models == command_models(commands@),
            body@ == spec_help_body(models.take(i as int)),
    {
        let line = help_line(&commands[i]);
        body.append(line.as_str());
        proof {
            let f = |c: CommandModel| spec_help_line(c);
            assert(models.take(i + 1) =~= models.take(i as int).push(models[i as int]));
            assert(models.take(i + 1).map_values(f) =~= models.take(i as int).map_values(f).push(
                f(models[i as int]),
            ));
            models.take(i as int).map_values(f).lemma_flatten_push(f(models[i as int]));
            assert(models[i as int] == commands@[i as int]@);
        }
    }
    proof {
        assert(models.take(n as int) =~= models);
    }
    let mut out = paint_green_bold(name);
    out.append(" ");
    out.append(version);
    out.append("\n");
    out.append(description);
    out.append("\n\n");
    let heading = paint_yellow_bold("COMMANDS:");
    out.append(heading.as_str());
    out.append("\n");
    out.append(body.as_str());
    proof {
        assert(out@ =~= spec_help_text(name@, version@, description@, models));
    }
    out
}

/// Renders the detailed usage of one command.
pub fn render_command_help(c: &ReplCommand) -> (r: String)
    ensures
        r@ == spec_command_help(c@),
{
    let ghost params = c@.parameters;
    let mut usage = String::new();
    let mut args = String::new();
    let n = c.parameters.len();
    proof {
        assert(params.take(0).map_values(|p: ParameterModel| spec_usage_token(p)) =~= Seq::<
            Seq<char>,
        >::empty());
        assert(params.take(0).map_values(|p: ParameterModel| spec_arg_line(p)) =~= Seq::<
            Seq<char>,
        >::empty());
        assert(usage@ =~= params.take(0).map_values(
            |p: ParameterModel| spec_usage_token(p),
        ).flatten());
        assert(args@ =~= params.take(0).map_values(|p: ParameterModel| spec_arg_line(p)).flatten());
    }
    for i in 0..n
        invariant
            n == c.parameters.len(),
            params == c@.parameters,
            usage@ == params.take(i as int).map_values(
                |p: ParameterModel| spec_usage_token(p),
            ).flatten(),
            args@ == params.take(i as int).map_values(
                |p: ParameterModel| spec_arg_line(p),
            ).flatten(),
    {
        let p = &c.parameters[i];
        if p.required {
            usage.append(" <");
            usage.append(p.name.as_str());
            usage.append(">");
        } else {
            usage.append(" [");
            usage.append(p.name.as_str());
            usage.append("]");
        }
        args.append("    ");
        args.append(p.name.as_str());
        match &p.help_summary {
            Some(h) => {
                args.append("    ");
                args.append(h.as_str());
            },
            None => {},
        }
        args.append("\n");
        proof {
            let fu = |q: ParameterModel| spec_usage_token(q);
            let fa = |q: ParameterModel| spec_arg_line(q);
            assert(params.take(i + 1) =~= params.take(i as int).push(params[i as int]));
            assert(params.take(i + 1).map_values(fu) =~= params.take(i as int).map_values(fu).push(
                fu(params[i as int]),
            ));
            assert(params.take(i + 1).map_values(fa) =~= params.take(i as int).map_values(fa).push(
                fa(params[i as int]),
            ));
            params.take(i as int).map_values(fu).lemma_flatten_push(fu(params[i as int]));
            params.take(i as int).map_values(fa).lemma_flatten_push(fa(params[i as int]));
            assert(params[i as int] == c@.parameters[i as int]);
            assert(usage@ =~= params.take(i + 1).map_values(fu).flatten());
            assert(args@ =~= params.take(i + 1).map_values(fa).flatten());
        }
    }
    proof {
        assert(params.take(n as int) =~= params);
    }
    let mut out = String::new();
    out.append(c.name.as_str());
    out.append("\n");
    match &c.about {
        Some(a) => {
            out.append(a.as_str());
            out.append("\n");
        },
        None => {},
    }
    out.append("\nUSAGE:\n    ");
    out.append(c.name.as_str());
    out.append(usage.as_str());
    out.append("\n");
    if c.parameters.len() > 0 {
        out.append("\nARGS:\n");
        out.append(args.as_str());
    }
    proof {
        assert(out@ =~= spec_command_help(c@));
    }
    out
}

/// Renders the diagnostic for an unknown help topic.
pub fn render_help_not_found(topic: &str) -> (r: String)
    ensures
        r@ == spec_help_not_found(topic@),
{
    let mut out = String::new();
    out.append("Help not found for command '");
    out.append(topic);
    out.append("'");
    proof {
        assert(out@ =~= spec_help_not_found(topic@));
    }
    out
}

} // verus!
