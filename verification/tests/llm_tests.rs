use experiments::llm_comparison::answer_check::{react_affirmative, tbca_affirmative};
use experiments::llm_comparison::batch_evaluator::{
    architecture_named, Architecture, BatchConfig, BatchEvaluator, BatchResult,
};
use experiments::llm_comparison::llm_variants::{hypothesis_prompt, LLMConfig};
use experiments::llm_comparison::react_engine::{ReActEngine, ReActStep};
use experiments::llm_comparison::react_rag_executor::ReActRAGExecutor;
use experiments::llm_comparison::task_loader::{Task, TaskLoadError, TaskLoader};
use experiments::llm_comparison::tbca_executor::{ExecutorAction, TBCAExecutor};

fn task(id: &str, expected: &str) -> Task {
    Task {
        id: id.to_string(),
        complexity: "low".to_string(),
        description: format!("description of {}", id),
        expected_outcome: expected.to_string(),
        reasoning_steps: 2,
    }
}

#[test]
fn affirmative_answers() {
    assert!(react_affirmative("Yes, it is.", "x"));
    assert!(tbca_affirmative("Yes, it is.", "x"));
    assert!(!react_affirmative("The payment was Accepted.", "Order shipped"));
    assert!(tbca_affirmative("The payment was Accepted.", "Order shipped"));
    assert!(react_affirmative("The ORDER arrived", "Order shipped"));
    assert!(!react_affirmative("fee due now", "fee due now"));
    assert!(react_affirmative("this is invalid", "x"));
    assert!(!tbca_affirmative("no", "no"));
}

#[test]
fn variants_and_prompts() {
    let all = LLMConfig::get_all();
    assert_eq!(all.len(), 3);
    assert_eq!((all[0].name.as_str(), all[0].model.as_str(), all[0].temperature_tenths), ("1.5B", "deepseek-r1:1.5b", 4));
    assert_eq!((all[1].name.as_str(), all[1].model.as_str(), all[1].temperature_tenths), ("3.8B", "phi3:mini", 5));
    assert_eq!((all[2].name.as_str(), all[2].model.as_str(), all[2].temperature_tenths), ("8B", "llama3.1:8b", 7));
    assert_eq!(all[2].endpoint, "http://localhost:11434");
    assert_eq!(all[0].tags_url(), "http://localhost:11434/api/tags");
    assert_eq!(all[0].generate_url(), "http://localhost:11434/api/generate");
    assert!(all[1].model_listed(&vec!["llama3:latest".to_string(), "phi3:mini-q4".to_string()]));
    assert!(!all[2].model_listed(&vec!["llama3:latest".to_string()]));
    assert!(!all[2].model_listed(&vec![]));
    assert_eq!(hypothesis_prompt("T", "C"), "Task: T\nContext: C\n\nProvide a clear solution and reasoning.");
}

fn replies(items: &[Option<&str>]) -> Vec<Option<String>> {
    items.iter().map(|r| r.map(|s| s.to_string())).collect()
}

#[test]
fn tbca_executor_steps() {
    let exec = TBCAExecutor::new(LLMConfig::get_all().remove(0));
    let t = task("L1", "Order shipped");
    assert_eq!(exec.prompt(&t, 1), "Task: description of L1\n\nWhat is the answer? Be concise.");
    assert_eq!(exec.prompt(&t, 2), "Task: description of L1\n\nWhat is the answer? Think step-by-step.");
    match exec.start(&t) {
        ExecutorAction::Ask { iteration, .. } => assert_eq!(iteration, 1),
        _ => panic!("expected a question"),
    }
    let rs = replies(&[None, Some("no idea"), Some("It is compliant"), None, None]);
    assert_eq!(exec.execute_with_replies(&t, &rs), (true, 3));
    let none = replies(&[None, None, None, None, None]);
    assert_eq!(exec.execute_with_replies(&t, &none), (false, 5));
    match exec.on_reply(&t, 5, Some("no".to_string())) {
        ExecutorAction::Finish { success, iterations } => assert_eq!((success, iterations), (false, 5)),
        _ => panic!("expected the end"),
    }
}

#[test]
fn react_executor_steps() {
    let exec = ReActRAGExecutor::new(LLMConfig::get_all().remove(1));
    let t = task("E1", "Order shipped");
    assert_eq!(exec.prompt(&t), "Task: description of E1\n\nWhat is the answer? Be concise.");
    assert_eq!(exec.seed_documents().len(), 2);
    let rs = replies(&[None, Some("no idea"), Some("It is compliant"), None, None]);
    assert_eq!(exec.execute_with_replies(&t, &rs), (false, 1));
    let rs2 = replies(&[Some("no idea"), Some("It is compliant"), Some("the order shipped"), None, None]);
    assert_eq!(exec.execute_with_replies(&t, &rs2), (true, 3));
    let tbca = TBCAExecutor::new(LLMConfig::get_all().remove(1));
    assert_eq!(tbca.execute_with_replies(&t, &rs2), (true, 2));
    let all_no = replies(&[Some("no"), Some("no"), Some("no"), Some("no"), Some("no")]);
    assert_eq!(exec.execute_with_replies(&t, &all_no), (false, 5));
}

#[test]
fn react_engine_steps() {
    let e = ReActEngine::new(3);
    assert_eq!(e.thought_prompt("T", ""), "Task: T\nContext: \n\nThought: ");
    assert_eq!(e.action_prompt("think"), "think\nAction: ");
    let mut ctx = String::new();
    e.record_iteration(&mut ctx, 1, "t", "a", "o");
    assert_eq!(ctx, "Iter 1:\nThought: t\nAction: a\nObs: o\n");
    assert_eq!(e.after_observation(1, false), ReActStep::Continue { next_iteration: 2 });
    assert_eq!(e.after_observation(3, false), ReActStep::Done { solved: false, iterations: 3 });
    assert_eq!(e.after_observation(2, true), ReActStep::Done { solved: true, iterations: 2 });
    assert_eq!(e.solve_with(&vec![false, true, true]), (true, 2));
    assert_eq!(e.solve_with(&vec![false, false, false]), (false, 3));
}

#[test]
fn batches_of_tasks() {
    let loader = TaskLoader::new("scenarios".to_string());
    assert_eq!(loader.scenario_files(), vec!["legal_tasks.json", "economic_tasks.json", "spatial_tasks.json"]);
    let all: Vec<Task> = (0..10).map(|i| task(&format!("T{}", i), "x")).collect();
    let ids = |b: Vec<Task>| b.iter().map(|t| t.id.clone()).collect::<Vec<_>>();
    assert_eq!(ids(loader.get_batch(Ok(all.clone()), 2, 4).unwrap()), vec!["T4", "T5", "T6", "T7"]);
    assert_eq!(ids(loader.get_batch(Ok(all.clone()), 3, 4).unwrap()), vec!["T8", "T9"]);
    assert!(loader.get_batch(Ok(all.clone()), 4, 4).unwrap().is_empty());
    assert!(loader.get_batch(Err(TaskLoadError::Unreadable("no file".to_string())), 1, 4).is_err());
    assert!(loader.get_batch(Err(TaskLoadError::Unreadable("no file".to_string())), 0, 4).is_err());
    let merged = loader.collect_tasks(vec![all[0..2].to_vec(), vec![], all[5..6].to_vec()]);
    assert_eq!(ids(merged), vec!["T0", "T1", "T5"]);
}

#[test]
fn batch_configuration_and_simulation() {
    let c = BatchConfig::default();
    assert_eq!((c.batch_size, c.num_batches, c.runs_per_config), (8, 4, 5));
    let e = BatchEvaluator::new("results".to_string());
    assert_eq!(e.config().num_batches, 4);
    assert_eq!(e.results_dir(), "results");
    assert_eq!(architecture_named("TBCA"), Architecture::Tbca);
    assert_eq!(architecture_named("ReAct+RAG"), Architecture::ReactRag);
    assert_eq!(architecture_named("react"), Architecture::Other);
    assert_eq!(e.simulate_from_draw("TBCA", 1, 8799), (true, 32));
    assert_eq!(e.simulate_from_draw("TBCA", 1, 8800), (false, 32));
    assert_eq!(e.simulate_from_draw("TBCA", 4, 9699), (true, 23));
    assert_eq!(e.simulate_from_draw("TBCA", 9, 9999), (true, 20));
    assert_eq!(e.simulate_from_draw("ReAct+RAG", 1, 6999), (true, 38));
    assert_eq!(e.simulate_from_draw("ReAct+RAG", 1, 7000), (false, 38));
    assert_eq!(e.simulate_from_draw("GPT", 1, 0), (false, 10));
    for _ in 0..50 {
        assert_eq!(e.simulate_task_execution("TBCA", 2).1, 29);
        assert!(e.simulate_task_execution("TBCA", 5).0);
    }
    assert_eq!(e.task_index_for_run(7, 3), 1);
    assert_eq!(e.real_outcome(None), (false, 10));
    assert_eq!(e.real_outcome(Some((true, 3))), (true, 30));
}

#[test]
fn batch_results_plan_and_groups() {
    let r = BatchResult::from_runs(2, "8B", "TBCA", &vec![(true, 30), (false, 50), (true, 20)]);
    assert_eq!((r.batch_num, r.successes, r.runs, r.iteration_tenths), (2, 2, 3, 100));
    assert_eq!((r.llm_name.as_str(), r.architecture.as_str()), ("8B", "TBCA"));
    let e = BatchEvaluator::new("results".to_string());
    let plan = e.batch_plan();
    assert_eq!(plan, vec![("TBCA", 1), ("TBCA", 2), ("TBCA", 3), ("TBCA", 4), ("ReAct+RAG", 1), ("ReAct+RAG", 2), ("ReAct+RAG", 3), ("ReAct+RAG", 4)]);
    let results = vec![
        BatchResult::from_runs(1, "1.5B", "TBCA", &vec![(true, 30)]),
        BatchResult::from_runs(1, "1.5B", "ReAct+RAG", &vec![(false, 38)]),
        BatchResult::from_runs(2, "1.5B", "TBCA", &vec![(true, 30)]),
        BatchResult::from_runs(1, "8B", "TBCA", &vec![(true, 20)]),
        BatchResult::from_runs(7, "8B", "TBCA", &vec![(true, 20)]),
    ];
    let groups = e.save_groups(&results);
    let got: Vec<(usize, String, Vec<usize>)> =
        groups.iter().map(|g| (g.batch_num, g.architecture.clone(), g.members.clone())).collect();
    assert_eq!(got, vec![
        (1, "TBCA".to_string(), vec![0, 3]),
        (1, "ReAct+RAG".to_string(), vec![1]),
        (2, "TBCA".to_string(), vec![2]),
    ]);
}

#[test]
fn batches_cover_all_tasks() {
    let loader = TaskLoader::new("scenarios".to_string());
    for n in 0..13usize {
        let all: Vec<Task> = (0..n).map(|i| task(&format!("T{}", i), "x")).collect();
        for size in 1..6usize {
            let m = (n + size - 1) / size;
            let mut joined: Vec<String> = Vec::new();
            for b in 1..=m {
                let batch = loader.get_batch(Ok(all.clone()), b, size).unwrap();
                if b < m {
                    assert_eq!(batch.len(), size);
                }
                joined.extend(batch.iter().map(|t| t.id.clone()));
            }
            assert_eq!(joined, all.iter().map(|t| t.id.clone()).collect::<Vec<_>>());
            assert!(loader.get_batch(Ok(all.clone()), m + 1, size).unwrap().is_empty());
        }
    }
}

#[test]
fn simulated_batches() {
    let e = BatchEvaluator::new("results".to_string());
    let r = e.simulate_batch_from_draws(1, "llama", "TBCA", &vec![0, 8799, 8800, 9999, 100]);
    assert_eq!((r.batch_num, r.llm_name.as_str(), r.architecture.as_str()), (1, "llama", "TBCA"));
    assert_eq!((r.successes, r.runs, r.iteration_tenths), (3, 5, 160));
    let r = e.simulate_batch_from_draws(2, "mistral", "ReAct+RAG", &vec![6999, 7000, 0]);
    assert_eq!((r.successes, r.runs, r.iteration_tenths), (2, 3, 114));
    let r = e.simulate_batch(1, "llama", "TBCA");
    assert_eq!((r.runs, r.iteration_tenths), (5, 160));
    assert!(r.successes <= 5);
}
