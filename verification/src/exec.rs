//! The decisions made while running a plan: whether to escalate, what exactly
//! to launch and echo for each step, and when to stop.

use vstd::prelude::*;
use crate::backend::{opt_text, shown_words, Step};
use crate::config::{escalator_spec, Config};
use crate::text::{copy_strings, join, texts};

verus! {

/// The escalator to use: none when already running as root, else the configured one.
pub fn effective_escalator(running_as_root: bool, cfg: &Config) -> (r: Option<&str>)
    ensures
        running_as_root ==> r is None,
        !running_as_root ==> opt_text(r) == escalator_spec(cfg.escalator@),
{
    if running_as_root {
        None
    } else {
        cfg.escalator()
    }
}

/// The process launched for one step, and the line echoed before it.
#[derive(Debug, Clone, PartialEq, Eq)]
pub struct Invocation {
    /// Whether the step runs through the escalator.
    pub escalated: bool,
    /// The program launched.
    pub program: String,
    /// Its arguments.
    pub args: Vec<String>,
    /// The command as echoed before it runs.
    pub echo: String,
}

/// How one step is launched: through the escalator when the step needs root
/// and there is an escalator, else directly; the echoed line shows the
/// escalator exactly when it is used.
pub fn invocation(step: &Step, escalator: Option<&str>) -> (r: Invocation)
    ensures
        r.escalated == (step.needs_root && escalator is Some),
        r.escalated ==> r.program@ == escalator->0@ && texts(r.args@) == seq![step.program@]
            + texts(step.args@),
        !r.escalated ==> r.program@ == step.program@ && texts(r.args@) == texts(step.args@),
        r.echo@ == join(
            shown_words(step@, if r.escalated { opt_text(escalator) } else { None }),
            " "@,
        ),
{
    let escalate = step.needs_root && escalator.is_some();
    let shown = if escalate { escalator } else { None };
    let echo = step.display(shown);
    if escalate {
        let e = escalator.unwrap();
        let mut args: Vec<String> = Vec::new();
        args.push(step.program.clone());
        let mut rest = copy_strings(&step.args);
        args.append(&mut rest);
        assert(texts(args@) =~= seq![step.program@] + texts(step.args@));
        Invocation { escalated: true, program: e.to_owned(), args, echo }
    } else {
        Invocation {
            escalated: false,
            program: step.program.clone(),
            args: copy_strings(&step.args),
            echo,
        }
    }
}

/// After a step has run: keep going when it succeeded; otherwise stop, with its
/// exit code, or 1 when it has none (it was killed by a signal).
pub fn step_outcome(success: bool, code: Option<i32>) -> (r: Option<i32>)
    ensures
        success ==> r is None,
        !success ==> r == Some(
            match code {
                Some(c) => c,
                None => 1i32,
            },
        ),
{
    if success {
        None
    } else {
        match code {
            Some(c) => Some(c),
            None => Some(1),
        }
    }
}

} // verus!
