# experiments

Experiments that evaluate a task-based cognitive architecture (TBCA) against a
ReAct+RAG baseline: cognitive-loop timings and success rates, gap resolution,
blockchain layer and scalability benchmarks, and the comparison across language
models and domains.

- `src/` is the library, verified with Verus: sample statistics (sums, extremes,
  means, sorting and percentiles), the tallies of gap resolution and of the
  cognitive loop's stages, the answer check and the step-by-step executors of
  both architectures, batching and grouping of results, CSV rows and LaTeX lines
  of the result tables, and the command line's meaning.
- `app/` is the program around it: HTTP requests to the model server and the
  chain, the Python retriever, timers and sleeps, reading scenario and
  deployment files, writing CSV files, and the floating-point rates and
  statistics that the tables print.
- `tests/` exercises the library on concrete values.

The logic engine that scores hypotheses lives in a knowledge crate of the
surrounding workspace; `app/` takes it as a `LogicEngine` supplied by the caller.
