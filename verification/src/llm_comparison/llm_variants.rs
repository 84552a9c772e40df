//! The language models compared, served by a local Ollama endpoint, and the
//! prompts sent to them.

use vstd::prelude::*;
use crate::text::{chars_of, contains_chars, contains_seq};

verus! {

/// A model variant: display name, Ollama model, endpoint, and sampling
/// temperature in tenths (4 = 0.4).
#[derive(Debug, Clone)]
pub struct LLMConfig {
    pub name: String,
    pub model: String,
    pub endpoint: String,
    pub temperature_tenths: u32,
}

/// `c` is the variant with the given name, model and temperature on the local endpoint.
pub open spec fn variant_is(c: LLMConfig, name: Seq<char>, model: Seq<char>, temperature_tenths: u32) -> bool {
    &&& c.name@ == name
    &&& c.model@ == model
    &&& c.endpoint@ == "http://localhost:11434"@
    &&& c.temperature_tenths == temperature_tenths
}

fn local_variant(name: &str, model: &str, temperature_tenths: u32) -> (c: LLMConfig)
    ensures
        variant_is(c, name@, model@, temperature_tenths),
{
    LLMConfig {
        name: String::from_str(name),
        model: String::from_str(model),
        endpoint: String::from_str("http://localhost:11434"),
        temperature_tenths,
    }
}

impl LLMConfig {
    /// The three variants compared: 1.5B (deepseek-r1:1.5b, 0.4), 3.8B
    /// (phi3:mini, 0.5) and 8B (llama3.1:8b, 0.7).
    pub fn get_all() -> (all: Vec<LLMConfig>)
        ensures
            all@.len() == 3,
            variant_is(all@[0], "1.5B"@, "deepseek-r1:1.5b"@, 4),
            variant_is(all@[1], "3.8B"@, "phi3:mini"@, 5),
            variant_is(all@[2], "8B"@, "llama3.1:8b"@, 7),
    {
        let mut all: Vec<LLMConfig> = Vec::new();
        all.push(local_variant("1.5B", "deepseek-r1:1.5b", 4));
        all.push(local_variant("3.8B", "phi3:mini", 5));
        all.push(local_variant("8B", "llama3.1:8b", 7));
        all
    }

    /// The address that lists the endpoint's models: `{endpoint}/api/tags`.
    pub fn tags_url(&self) -> (s: String)
        ensures
            s@ == self.endpoint@ + "/api/tags"@,
    {
        let mut s = self.endpoint.clone();
        s.append("/api/tags");
        s
    }

    /// The address that generates text: `{endpoint}/api/generate`.
    pub fn generate_url(&self) -> (s: String)
        ensures
            s@ == self.endpoint@ + "/api/generate"@,
    {
        let mut s = self.endpoint.clone();
        s.append("/api/generate");
        s
    }

    /// Whether the endpoint serves this variant's model: some listed model name
    /// contains the model's name.
    pub fn model_listed(&self, names: &Vec<String>) -> (r: bool)
        ensures
            r == exists|i: int|
                0 <= i < names@.len() && #[trigger] contains_seq(names@[i]@, self.model@),
    {
        let model = chars_of(self.model.as_str());
        let n = names.len();
        let mut i: usize = 0;
        while i < n
            invariant
                n == names@.len(),
                i <= n,
                model@ == self.model@,
                forall|j: int| 0 <= j < i ==> !#[trigger] contains_seq(names@[j]@, self.model@),
            decreases n - i,
        {
            let name = chars_of(names[i].as_str());
            if contains_chars(&name, &model) {
                return true;
            }
            i = i + 1;
        }
        false
    }
}

/// The prompt asking for a hypothesis:
/// `Task: {task}\nContext: {context}\n\nProvide a clear solution and reasoning.`
pub open spec fn hypothesis_prompt_of(task: Seq<char>, context: Seq<char>) -> Seq<char> {
    "Task: "@ + task + "\nContext: "@ + context + "\n\nProvide a clear solution and reasoning."@
}

/// The prompt asking for a hypothesis for a task in a context.
pub fn hypothesis_prompt(task: &str, context: &str) -> (s: String)
    ensures
        s@ == hypothesis_prompt_of(task@, context@),
{
    let mut s = String::from_str("Task: ");
    s.append(task);
    s.append("\nContext: ");
    s.append(context);
    s.append("\n\nProvide a clear solution and reasoning.");
    s
}

} // verus!
