//! Comparison of the task-based cognitive architecture (TBCA) with a ReAct+RAG
//! baseline across language models of several sizes.

pub mod answer_check;
pub mod batch_evaluator;
pub mod llm_variants;
pub mod react_engine;
pub mod react_rag_executor;
pub mod task_loader;
pub mod tbca_executor;
