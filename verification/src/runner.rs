//! Which experiment a command line asks for.

use vstd::prelude::*;
use crate::text::str_eq;

verus! {

/// An experiment that can be run on its own.
#[derive(Debug, Clone, Copy, PartialEq, Eq)]
pub enum Experiment {
    Blockchain,
    Cognitive,
    Gap,
    MultiDomain,
    Llm,
    Error,
    Sota,
}

/// What a command line asks for.
#[derive(Debug, Clone, PartialEq, Eq)]
pub enum Command {
    /// Print the usage: no experiment named, or help asked for.
    Usage,
    /// Run one experiment.
    Run(Experiment),
    /// Run every experiment, in priority order.
    All,
    /// The name is no experiment; it is reported with the usage.
    Unknown(String),
}

/// The experiment with the given name, if there is one.
pub open spec fn experiment_named(name: Seq<char>) -> Option<Experiment> {
    if name == "blockchain"@ {
        Some(Experiment::Blockchain)
    } else if name == "cognitive"@ {
        Some(Experiment::Cognitive)
    } else if name == "gap"@ {
        Some(Experiment::Gap)
    } else if name == "multi-domain"@ {
        Some(Experiment::MultiDomain)
    } else if name == "llm"@ {
        Some(Experiment::Llm)
    } else if name == "error"@ {
        Some(Experiment::Error)
    } else if name == "sota"@ {
        Some(Experiment::Sota)
    } else {
        None
    }
}

/// The name that selects an experiment on the command line.
pub open spec fn name_of(e: Experiment) -> Seq<char> {
    match e {
        Experiment::Blockchain => "blockchain"@,
        Experiment::Cognitive => "cognitive"@,
        Experiment::Gap => "gap"@,
        Experiment::MultiDomain => "multi-domain"@,
        Experiment::Llm => "llm"@,
        Experiment::Error => "error"@,
        Experiment::Sota => "sota"@,
    }
}

/// What the arguments (the program's name first) ask for.
pub open spec fn command_matches(args: Seq<String>, c: Command) -> bool {
    if args.len() < 2 || args[1]@ == "--help"@ || args[1]@ == "-h"@ {
        c == Command::Usage
    } else if args[1]@ == "all"@ {
        c == Command::All
    } else {
        match experiment_named(args[1]@) {
            Some(e) => c == Command::Run(e),
            None => c matches Command::Unknown(name) && name@ == args[1]@,
        }
    }
}

/// The experiment with the given name, if there is one.
pub fn parse_experiment(name: &str) -> (e: Option<Experiment>)
    ensures
        e == experiment_named(name@),
{
    if str_eq(name, "blockchain") {
        Some(Experiment::Blockchain)
    } else if str_eq(name, "cognitive") {
        Some(Experiment::Cognitive)
    } else if str_eq(name, "gap") {
        Some(Experiment::Gap)
    } else if str_eq(name, "multi-domain") {
        Some(Experiment::MultiDomain)
    } else if str_eq(name, "llm") {
        Some(Experiment::Llm)
    } else if str_eq(name, "error") {
        Some(Experiment::Error)
    } else if str_eq(name, "sota") {
        Some(Experiment::Sota)
    } else {
        None
    }
}

/// What the command line asks for: the usage when no experiment is named or
/// help is asked for, every experiment for "all", the named experiment, or an
/// unknown name.
pub fn parse_command(args: &Vec<String>) -> (c: Command)
    ensures
        command_matches(args@, c),
{
    if args.len() < 2 {
        return Command::Usage;
    }
    let name = args[1].as_str();
    if str_eq(name, "--help") || str_eq(name, "-h") {
        Command::Usage
    } else if str_eq(name, "all") {
        Command::All
    } else {
        match parse_experiment(name) {
            Some(e) => Command::Run(e),
            None => Command::Unknown(args[1].clone()),
        }
    }
}

/// The order in which "all" runs the experiments: multi-domain, LLM
/// comparison, error analysis, gap resolution, cognitive loop, blockchain,
/// state-of-the-art comparison.
pub fn all_in_priority_order() -> (order: Vec<Experiment>)
    ensures
        order@ == seq![
            Experiment::MultiDomain,
            Experiment::Llm,
            Experiment::Error,
            Experiment::Gap,
            Experiment::Cognitive,
            Experiment::Blockchain,
            Experiment::Sota,
        ],
{
    let mut order: Vec<Experiment> = Vec::new();
    order.push(Experiment::MultiDomain);
    order.push(Experiment::Llm);
    order.push(Experiment::Error);
    order.push(Experiment::Gap);
    order.push(Experiment::Cognitive);
    order.push(Experiment::Blockchain);
    order.push(Experiment::Sota);
    assert(order@ =~= seq![
        Experiment::MultiDomain,
        Experiment::Llm,
        Experiment::Error,
        Experiment::Gap,
        Experiment::Cognitive,
        Experiment::Blockchain,
        Experiment::Sota,
    ]);
    order
}

/// Every experiment is selected by its own name, and by no other: parsing an
/// experiment's name gives that experiment, and a name that parses to an
/// experiment is that experiment's name. So no two experiments share a name.
pub proof fn lemma_experiment_names(e: Experiment, name: Seq<char>)
    ensures
        experiment_named(name_of(e)) == Some(e),
        experiment_named(name) == Some(e) ==> name == name_of(e),
        experiment_named("gap"@) == Some(Experiment::Gap),
        experiment_named("cognitive"@) == Some(Experiment::Cognitive),
{
    reveal_strlit("blockchain");
    reveal_strlit("cognitive");
    reveal_strlit("gap");
    reveal_strlit("multi-domain");
    reveal_strlit("llm");
    reveal_strlit("error");
    reveal_strlit("sota");
    assert("blockchain"@.len() == 10);
    assert("cognitive"@.len() == 9);
    assert("gap"@.len() == 3);
    assert("multi-domain"@.len() == 12);
    assert("llm"@.len() == 3);
    assert("error"@.len() == 5);
    assert("sota"@.len() == 4);
    assert("gap"@[0] != "llm"@[0]);
    assert("gap"@ != "llm"@);
}

} // verus!
