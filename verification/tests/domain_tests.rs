use experiments::multi_domain::domain_evaluator::{DomainEvaluator, DomainResults};
use experiments::multi_domain::task_definitions::{Task, TaskSet};
use experiments::multi_domain::{domains, scenario_file_name};
use experiments::runner::{all_in_priority_order, parse_command, parse_experiment, Command, Experiment};

fn args(list: &[&str]) -> Vec<String> {
    list.iter().map(|s| s.to_string()).collect()
}

#[test]
fn commands() {
    assert_eq!(parse_command(&args(&["run"])), Command::Usage);
    assert_eq!(parse_command(&args(&["run", "--help"])), Command::Usage);
    assert_eq!(parse_command(&args(&["run", "-h", "gap"])), Command::Usage);
    assert_eq!(parse_command(&args(&["run", "all"])), Command::All);
    assert_eq!(parse_command(&args(&["run", "multi-domain"])), Command::Run(Experiment::MultiDomain));
    assert_eq!(parse_command(&args(&["run", "sota"])), Command::Run(Experiment::Sota));
    assert_eq!(parse_command(&args(&["run", "Gap"])), Command::Unknown("Gap".to_string()));
    assert_eq!(parse_experiment("blockchain"), Some(Experiment::Blockchain));
    assert_eq!(parse_experiment(""), None);
    assert_eq!(all_in_priority_order()[0], Experiment::MultiDomain);
    assert_eq!(all_in_priority_order().len(), 7);
}

#[test]
fn domain_files() {
    assert_eq!(domains(), vec!["legal", "economic", "spatial"]);
    assert_eq!(scenario_file_name("legal"), "legal_tasks.json");
}

#[test]
fn domain_results_as_csv() {
    let e = DomainEvaluator::new("out".to_string());
    assert_eq!(e.results_dir(), "out");
    let set = TaskSet {
        domain: "legal".to_string(),
        tasks: vec![Task {
            id: "L1".to_string(),
            complexity: "high".to_string(),
            description: "d".to_string(),
            expected_outcome: "fulfilled".to_string(),
            reasoning_steps: 3,
        }],
    };
    let c = e.comparison_task(&set.tasks[0]);
    assert_eq!((c.id.as_str(), c.reasoning_steps), ("L1", 3));
    let tr = e.task_result(&set.tasks[0], (true, 2), (false, 5));
    let results = vec![
        DomainResults { domain: "legal".to_string(), task_results: vec![tr.clone(), tr] },
        DomainResults { domain: "spatial".to_string(), task_results: vec![] },
    ];
    assert_eq!(e.csv_file_name(), "table9_domain_performance.csv");
    assert_eq!(e.csv_header(), vec!["Domain", "Complexity", "TBCA_SR", "TBCA_Iterations", "ReAct_SR", "ReAct_Iterations"]);
    let rows = e.csv_rows(&results);
    assert_eq!(rows.len(), 2);
    assert_eq!(rows[0], vec!["legal", "high", "1", "2", "0", "5"]);
}
