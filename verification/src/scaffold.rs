//! The files that `tama add` and `tama init` write: each scaffold as a list
//! of (file name, contents).
use vstd::prelude::*;
use vstd::string::StringExecFns;

use crate::lint::{lemma_filter_empty_iff, spec_missing_files, spec_required_files};
use crate::manifest::AgentPattern;
use crate::project::Scaffold;

verus! {

/// The views of a list of (file name, contents) pairs.
pub open spec fn file_views(files: Seq<(String, String)>) -> Seq<(Seq<char>, Seq<char>)> {
    files.map_values(|f: (String, String)| (f.0@, f.1@))
}

/// The files of the `Skill` scaffold.
pub open spec fn spec_skill_files(name: Seq<char>) -> Seq<(Seq<char>, Seq<char>)> {
    seq![("SKILL.md"@, "---\nname: "@ + name + "\ndescription: Describe what this skill does and when to use it.\nmetadata:\ntama.depends.apt: ~      # e.g. poppler-utils\ntama.depends.bins: ~     # e.g. pdftotext\ntama.depends.uv: ~       # e.g. requests>=2.31.0\n---\n\nDescribe how to use this skill.\n\nUse bash to run `command \"$INPUT\"` and return the result.\n"@)]
}

/// The files of the `React` scaffold.
pub open spec fn spec_react_files(name: Seq<char>) -> Seq<(Seq<char>, Seq<char>)> {
    seq![("AGENT.md"@, "---\nname: "@ + name + "\ndescription: Describe what this agent does.\nversion: 1.0.0\npattern: react\ncall:\nmodel:\nrole: thinker\nuses: []  # add skill names, e.g. [search-web]\n---\n\nYou are a helpful assistant.\nUse the available tools to complete the task.\nWhen done, call finish with your result.\n"@)]
}

/// The files of the `Critic` scaffold.
pub open spec fn spec_critic_files(name: Seq<char>) -> Seq<(Seq<char>, Seq<char>)> {
    seq![("AGENT.md"@, "---\nname: "@ + name + "\ndescription: Describe what this agent reviews and improves.\nversion: 1.0.0\npattern: critic\ncall:\nmodel:\nrole: thinker\n---\n"@), ("draft.md"@, "Write a thorough response to the task given to you.\n"@), ("critique.md"@, "Review the response given to you. Identify specific weaknesses:\nmissing information, incorrect claims, poor structure.\n"@), ("refine.md"@, "Rewrite the response fixing all issues from the critique.\nYou will receive the original task and the critique as context.\nProduce only the final improved response.\n"@)]
}

/// The files of the `Parallel` scaffold.
pub open spec fn spec_parallel_files(name: Seq<char>) -> Seq<(Seq<char>, Seq<char>)> {
    seq![("AGENT.md"@, "---\nname: "@ + name + "\ndescription: Describe what this parallel agent does.\nversion: 1.0.0\npattern: parallel\nworkers: []  # add agent names, e.g. [agent-a, agent-b]\n---\n"@)]
}

/// The files of the `Fsm` scaffold.
pub open spec fn spec_fsm_files(name: Seq<char>) -> Seq<(Seq<char>, Seq<char>)> {
    seq![("AGENT.md"@, "---\nname: "@ + name + "\ndescription: Describe the workflow this FSM implements.\nversion: 1.0.0\npattern: fsm\ninitial: step-a\nstates:\nstep-a:              # unconditional → always goes to step-b\n- done: ~          # conditional → finish word 'done' = terminal\n- next: step-b     # conditional → finish word 'next' = step-b\nstep-b:              # terminal (no transitions)\n---\n"@)]
}

/// The files of the `Scatter` scaffold.
pub open spec fn spec_scatter_files(name: Seq<char>) -> Seq<(Seq<char>, Seq<char>)> {
    seq![("AGENT.md"@, "---\nname: "@ + name + "\ndescription: Describe what this scatter agent fans out.\nversion: 1.0.0\npattern: scatter\nworker: my-worker  # replace with the worker agent name\ncall:\nmodel:\nrole: thinker\nuses: []  # skills available to the map phase\n---\n\nYou are a planning agent. Analyse the task and determine the list of items to process.\nWhen ready, call finish(key=\"parallel\", value='[\"item1\",\"item2\",...]') with a JSON array.\nIf no fan-out is needed, call finish(key=\"done\", value=\"...\") directly.\n"@), ("reduce.md"@, "You are a synthesis agent.\nYou will receive the original task and the results from all parallel workers.\nSynthesize the results into a single coherent final answer.\nWhen done, call finish(key=\"done\", value=\"...\") with your synthesized result.\n"@)]
}

/// The files of the `Debate` scaffold.
pub open spec fn spec_debate_files(name: Seq<char>) -> Seq<(Seq<char>, Seq<char>)> {
    seq![("AGENT.md"@, "---\nname: "@ + name + "\ndescription: Describe the debate topic and goal.\nversion: 1.0.0\npattern: debate\nagents:\n- proponent\n- skeptic\nrounds: 2\njudge: synthesis\ncall:\nmodel:\nrole: thinker\n---\n"@), ("position-a.md"@, "You are arguing in favor of the topic given to you.\nState your opening position clearly. Lead with your strongest argument.\n"@), ("position-b.md"@, "You are arguing against the topic given to you.\nState your opening position clearly. Lead with your strongest argument.\n"@), ("judge.md"@, "You are an impartial judge.\nYou will receive the debate topic and the full debate transcript.\nGive your verdict — not a winner, but the most defensible position.\n"@)]
}

/// The files of the `Reflexion` scaffold.
pub open spec fn spec_reflexion_files(name: Seq<char>) -> Seq<(Seq<char>, Seq<char>)> {
    seq![("AGENT.md"@, "---\nname: "@ + name + "\ndescription: Describe the task this agent iteratively attempts.\nversion: 1.0.0\npattern: reflexion\nmax_iter: 4\n---\n"@), ("act.md"@, "---\npattern: react\nmodel:\nrole: thinker\nuses: []  # tools needed to attempt the task, e.g. [run-tests]\n---\n\nComplete the task given to you.\nIf previous attempts failed, you will receive their lessons — apply them.\n"@), ("evaluate.md"@, "Evaluate whether the attempt successfully solved the task.\nYou will receive the task and the attempt as context.\nCall finish with 'continue' if it failed, 'stop' if it succeeded.\n"@), ("reflect.md"@, "The attempt failed. You will receive the task and the failed attempt.\nWrite 3-5 bullet points: what failed, root cause, what to do differently.\n"@)]
}

/// The files of the `Constitutional` scaffold.
pub open spec fn spec_constitutional_files(name: Seq<char>) -> Seq<(Seq<char>, Seq<char>)> {
    seq![("AGENT.md"@, "---\nname: "@ + name + "\ndescription: Describe what content this agent generates and refines.\nversion: 1.0.0\npattern: constitutional\ncall:\nmodel:\nrole: thinker\n---\n"@), ("generate.md"@, "Write a thorough response to the following request.\nThis is a first draft — do not self-censor excessively.\n\nRequest: {{input}}\n"@), ("principles.md"@, "Be factually accurate: every claim must be verifiable or clearly labeled as opinion.\nBe clear and concise: no jargon without explanation, no filler sentences.\nBe balanced: present multiple perspectives on genuinely contested topics.\nBe actionable: end with specific next steps or recommendations where relevant.\n"@), ("revise.md"@, "Rewrite the draft to fix all principle violations.\n\nOriginal request: {{input}}\nDraft: {{draft}}\nCritiques: {{critiques}}\n\nYou will receive the original request, the draft, and the critiques as context.\nFix every flagged violation. Output only the final revised text.\n"@)]
}

/// The files of the `ChainOfVerification` scaffold.
pub open spec fn spec_chain_of_verification_files(name: Seq<char>) -> Seq<(Seq<char>, Seq<char>)> {
    seq![("AGENT.md"@, "---\nname: "@ + name + "\ndescription: Describe what claims this agent generates and verifies.\nversion: 1.0.0\npattern: chain-of-verification\ncall:\nmodel:\nrole: thinker\n---\n"@), ("generate.md"@, "Answer the question given to you thoroughly.\n"@), ("verify.md"@, "List verification questions for every factual claim in the answer given to you.\nThen answer each question independently.\n"@), ("revise.md"@, "Rewrite the original answer incorporating corrections from verification.\nYou will receive the original answer and the verification results as context.\n"@)]
}

/// The files of the `PlanExecute` scaffold.
pub open spec fn spec_plan_execute_files(name: Seq<char>) -> Seq<(Seq<char>, Seq<char>)> {
    seq![("AGENT.md"@, "---\nname: "@ + name + "\ndescription: Describe the task this agent plans and executes.\nversion: 1.0.0\npattern: plan-execute\ncall:\nmodel:\nrole: thinker\n---\n"@), ("plan.md"@, "Create a step-by-step plan to accomplish the task given to you.\nBe specific and concrete. Number each step.\n"@), ("execute.md"@, "Execute the plan given to you step by step.\nYou will receive both the task and the plan as context.\n"@), ("verify.md"@, "Verify whether the execution successfully completed the task.\nYou will receive the task and the execution result as context.\nCall finish with 'done' if successful, 'retry' if it needs another attempt.\n"@)]
}

/// The files of the `BestOfN` scaffold.
pub open spec fn spec_best_of_n_files(name: Seq<char>) -> Seq<(Seq<char>, Seq<char>)> {
    seq![("AGENT.md"@, "---\nname: "@ + name + "\ndescription: Describe what this agent generates and selects best of.\nversion: 1.0.0\npattern: best-of-n\nn: 3  # number of variants to generate\ncall:\nmodel:\nrole: thinker\n---\n"@), ("prompt.md"@, "Complete the task given to you.\nBe creative and thorough.\n"@), ("judge.md"@, "Select the best candidate response to the task.\nYou will receive the task and all candidate responses as context.\nExplain your choice briefly, then output the selected response.\n"@)]
}

/// The files of the `Human` scaffold.
pub open spec fn spec_human_files(name: Seq<char>) -> Seq<(Seq<char>, Seq<char>)> {
    seq![("AGENT.md"@, "---\nname: "@ + name + "\ndescription: Describe what this agent does and what it asks the human.\nversion: 1.0.0\npattern: human\ncall:\nmodel:\nrole: thinker\nuses: []  # tools for phase 1, e.g. [search-web]\n---\n\nComplete the preparation task, then ask the human a specific question.\nWhen ready, call finish with the channel id as key and your question as value.\nExample: finish(\"review\", \"Here is the draft: ...\\n\\nPlease review and approve.\")\n"@), ("resume.md"@, "The human has responded. Their response is your input.\nProcess the response and complete the task.\nWhen done, call finish with your result.\n"@)]
}

/// The files of the `Oneshot` scaffold.
pub open spec fn spec_oneshot_files(name: Seq<char>) -> Seq<(Seq<char>, Seq<char>)> {
    seq![("AGENT.md"@, "---\nname: "@ + name + "\ndescription: Describe what this agent does.\nversion: 1.0.0\npattern: oneshot\ncall:\nmodel:\nrole: thinker\n---\n\nYou are a helpful assistant. Answer concisely and directly.\n"@)]
}
/// The files a scaffold writes for an agent or skill called `name`; the
/// skill's file goes to `skills/{name}/`, an agent's to `agents/{name}/`.
pub open spec fn spec_scaffold_files(kind: Scaffold, name: Seq<char>) -> Seq<(Seq<char>, Seq<char>)> {
    match kind {
        Scaffold::Skill => spec_skill_files(name),
        Scaffold::React => spec_react_files(name),
        Scaffold::Critic => spec_critic_files(name),
        Scaffold::Parallel => spec_parallel_files(name),
        Scaffold::Fsm => spec_fsm_files(name),
        Scaffold::Scatter => spec_scatter_files(name),
        Scaffold::Debate => spec_debate_files(name),
        Scaffold::Reflexion => spec_reflexion_files(name),
        Scaffold::Constitutional => spec_constitutional_files(name),
        Scaffold::ChainOfVerification => spec_chain_of_verification_files(name),
        Scaffold::PlanExecute => spec_plan_execute_files(name),
        Scaffold::BestOfN => spec_best_of_n_files(name),
        Scaffold::Human => spec_human_files(name),
        Scaffold::Oneshot => spec_oneshot_files(name),
    }
}

fn push_file(files: &mut Vec<(String, String)>, name: &str, contents: String)
    ensures
        file_views(final(files)@) == file_views(old(files)@).push((name@, contents@)),
{
    let ghost before = file_views(files@);
    files.push((name.to_owned(), contents));
    assert(file_views(files@) =~= before.push((name@, contents@)));
}

/// The files a scaffold writes for an agent or skill called `name`.
pub fn scaffold_files(kind: Scaffold, name: &str) -> (r: Vec<(String, String)>)
    ensures
        file_views(r@) == spec_scaffold_files(kind, name@),
{
    let mut files: Vec<(String, String)> = Vec::new();
    assert(file_views(files@) =~= Seq::<(Seq<char>, Seq<char>)>::empty());
    match kind {
        Scaffold::Skill => {
            let mut c0 = String::from_str("---\nname: ");
            c0.append(name);
            c0.append("\ndescription: Describe what this skill does and when to use it.\nmetadata:\ntama.depends.apt: ~      # e.g. poppler-utils\ntama.depends.bins: ~     # e.g. pdftotext\ntama.depends.uv: ~       # e.g. requests>=2.31.0\n---\n\nDescribe how to use this skill.\n\nUse bash to run `command \"$INPUT\"` and return the result.\n");
            push_file(&mut files, "SKILL.md", c0);
        },
        Scaffold::React => {
            let mut c0 = String::from_str("---\nname: ");
            c0.append(name);
            c0.append("\ndescription: Describe what this agent does.\nversion: 1.0.0\npattern: react\ncall:\nmodel:\nrole: thinker\nuses: []  # add skill names, e.g. [search-web]\n---\n\nYou are a helpful assistant.\nUse the available tools to complete the task.\nWhen done, call finish with your result.\n");
            push_file(&mut files, "AGENT.md", c0);
        },
        Scaffold::Critic => {
            let mut c0 = String::from_str("---\nname: ");
            c0.append(name);
            c0.append("\ndescription: Describe what this agent reviews and improves.\nversion: 1.0.0\npattern: critic\ncall:\nmodel:\nrole: thinker\n---\n");
            push_file(&mut files, "AGENT.md", c0);
            let mut c1 = String::from_str("Write a thorough response to the task given to you.\n");
            push_file(&mut files, "draft.md", c1);
            let mut c2 = String::from_str("Review the response given to you. Identify specific weaknesses:\nmissing information, incorrect claims, poor structure.\n");
            push_file(&mut files, "critique.md", c2);
            let mut c3 = String::from_str("Rewrite the response fixing all issues from the critique.\nYou will receive the original task and the critique as context.\nProduce only the final improved response.\n");
            push_file(&mut files, "refine.md", c3);
        },
        Scaffold::Parallel => {
            let mut c0 = String::from_str("---\nname: ");
            c0.append(name);
            c0.append("\ndescription: Describe what this parallel agent does.\nversion: 1.0.0\npattern: parallel\nworkers: []  # add agent names, e.g. [agent-a, agent-b]\n---\n");
            push_file(&mut files, "AGENT.md", c0);
        },
        Scaffold::Fsm => {
            let mut c0 = String::from_str("---\nname: ");
            c0.append(name);
            c0.append("\ndescription: Describe the workflow this FSM implements.\nversion: 1.0.0\npattern: fsm\ninitial: step-a\nstates:\nstep-a:              # unconditional → always goes to step-b\n- done: ~          # conditional → finish word 'done' = terminal\n- next: step-b     # conditional → finish word 'next' = step-b\nstep-b:              # terminal (no transitions)\n---\n");
            push_file(&mut files, "AGENT.md", c0);
        },
        Scaffold::Scatter => {
            let mut c0 = String::from_str("---\nname: ");
            c0.append(name);
            c0.append("\ndescription: Describe what this scatter agent fans out.\nversion: 1.0.0\npattern: scatter\nworker: my-worker  # replace with the worker agent name\ncall:\nmodel:\nrole: thinker\nuses: []  # skills available to the map phase\n---\n\nYou are a planning agent. Analyse the task and determine the list of items to process.\nWhen ready, call finish(key=\"parallel\", value='[\"item1\",\"item2\",...]') with a JSON array.\nIf no fan-out is needed, call finish(key=\"done\", value=\"...\") directly.\n");
            push_file(&mut files, "AGENT.md", c0);
            let mut c1 = String::from_str("You are a synthesis agent.\nYou will receive the original task and the results from all parallel workers.\nSynthesize the results into a single coherent final answer.\nWhen done, call finish(key=\"done\", value=\"...\") with your synthesized result.\n");
            push_file(&mut files, "reduce.md", c1);
        },
        Scaffold::Debate => {
            let mut c0 = String::from_str("---\nname: ");
            c0.append(name);
            c0.append("\ndescription: Describe the debate topic and goal.\nversion: 1.0.0\npattern: debate\nagents:\n- proponent\n- skeptic\nrounds: 2\njudge: synthesis\ncall:\nmodel:\nrole: thinker\n---\n");
            push_file(&mut files, "AGENT.md", c0);
            let mut c1 = String::from_str("You are arguing in favor of the topic given to you.\nState your opening position clearly. Lead with your strongest argument.\n");
            push_file(&mut files, "position-a.md", c1);
            let mut c2 = String::from_str("You are arguing against the topic given to you.\nState your opening position clearly. Lead with your strongest argument.\n");
            push_file(&mut files, "position-b.md", c2);
            let mut c3 = String::from_str("You are an impartial judge.\nYou will receive the debate topic and the full debate transcript.\nGive your verdict — not a winner, but the most defensible position.\n");
            push_file(&mut files, "judge.md", c3);
        },
        Scaffold::Reflexion => {
            let mut c0 = String::from_str("---\nname: ");
            c0.append(name);
            c0.append("\ndescription: Describe the task this agent iteratively attempts.\nversion: 1.0.0\npattern: reflexion\nmax_iter: 4\n---\n");
            push_file(&mut files, "AGENT.md", c0);
            let mut c1 = String::from_str("---\npattern: react\nmodel:\nrole: thinker\nuses: []  # tools needed to attempt the task, e.g. [run-tests]\n---\n\nComplete the task given to you.\nIf previous attempts failed, you will receive their lessons — apply them.\n");
            push_file(&mut files, "act.md", c1);
            let mut c2 = String::from_str("Evaluate whether the attempt successfully solved the task.\nYou will receive the task and the attempt as context.\nCall finish with 'continue' if it failed, 'stop' if it succeeded.\n");
            push_file(&mut files, "evaluate.md", c2);
            let mut c3 = String::from_str("The attempt failed. You will receive the task and the failed attempt.\nWrite 3-5 bullet points: what failed, root cause, what to do differently.\n");
            push_file(&mut files, "reflect.md", c3);
        },
        Scaffold::Constitutional => {
            let mut c0 = String::from_str("---\nname: ");
            c0.append(name);
            c0.append("\ndescription: Describe what content this agent generates and refines.\nversion: 1.0.0\npattern: constitutional\ncall:\nmodel:\nrole: thinker\n---\n");
            push_file(&mut files, "AGENT.md", c0);
            let mut c1 = String::from_str("Write a thorough response to the following request.\nThis is a first draft — do not self-censor excessively.\n\nRequest: {{input}}\n");
            push_file(&mut files, "generate.md", c1);
            let mut c2 = String::from_str("Be factually accurate: every claim must be verifiable or clearly labeled as opinion.\nBe clear and concise: no jargon without explanation, no filler sentences.\nBe balanced: present multiple perspectives on genuinely contested topics.\nBe actionable: end with specific next steps or recommendations where relevant.\n");
            push_file(&mut files, "principles.md", c2);
            let mut c3 = String::from_str("Rewrite the draft to fix all principle violations.\n\nOriginal request: {{input}}\nDraft: {{draft}}\nCritiques: {{critiques}}\n\nYou will receive the original request, the draft, and the critiques as context.\nFix every flagged violation. Output only the final revised text.\n");
            push_file(&mut files, "revise.md", c3);
        },
        Scaffold::ChainOfVerification => {
            let mut c0 = String::from_str("---\nname: ");
            c0.append(name);
            c0.append("\ndescription: Describe what claims this agent generates and verifies.\nversion: 1.0.0\npattern: chain-of-verification\ncall:\nmodel:\nrole: thinker\n---\n");
            push_file(&mut files, "AGENT.md", c0);
            let mut c1 = String::from_str("Answer the question given to you thoroughly.\n");
            push_file(&mut files, "generate.md", c1);
            let mut c2 = String::from_str("List verification questions for every factual claim in the answer given to you.\nThen answer each question independently.\n");
            push_file(&mut files, "verify.md", c2);
            let mut c3 = String::from_str("Rewrite the original answer incorporating corrections from verification.\nYou will receive the original answer and the verification results as context.\n");
            push_file(&mut files, "revise.md", c3);
        },
        Scaffold::PlanExecute => {
            let mut c0 = String::from_str("---\nname: ");
            c0.append(name);
            c0.append("\ndescription: Describe the task this agent plans and executes.\nversion: 1.0.0\npattern: plan-execute\ncall:\nmodel:\nrole: thinker\n---\n");
            push_file(&mut files, "AGENT.md", c0);
            let mut c1 = String::from_str("Create a step-by-step plan to accomplish the task given to you.\nBe specific and concrete. Number each step.\n");
            push_file(&mut files, "plan.md", c1);
            let mut c2 = String::from_str("Execute the plan given to you step by step.\nYou will receive both the task and the plan as context.\n");
            push_file(&mut files, "execute.md", c2);
            let mut c3 = String::from_str("Verify whether the execution successfully completed the task.\nYou will receive the task and the execution result as context.\nCall finish with 'done' if successful, 'retry' if it needs another attempt.\n");
            push_file(&mut files, "verify.md", c3);
        },
        Scaffold::BestOfN => {
            let mut c0 = String::from_str("---\nname: ");
            c0.append(name);
            c0.append("\ndescription: Describe what this agent generates and selects best of.\nversion: 1.0.0\npattern: best-of-n\nn: 3  # number of variants to generate\ncall:\nmodel:\nrole: thinker\n---\n");
            push_file(&mut files, "AGENT.md", c0);
            let mut c1 = String::from_str("Complete the task given to you.\nBe creative and thorough.\n");
            push_file(&mut files, "prompt.md", c1);
            let mut c2 = String::from_str("Select the best candidate response to the task.\nYou will receive the task and all candidate responses as context.\nExplain your choice briefly, then output the selected response.\n");
            push_file(&mut files, "judge.md", c2);
        },
        Scaffold::Human => {
            let mut c0 = String::from_str("---\nname: ");
            c0.append(name);
            c0.append("\ndescription: Describe what this agent does and what it asks the human.\nversion: 1.0.0\npattern: human\ncall:\nmodel:\nrole: thinker\nuses: []  # tools for phase 1, e.g. [search-web]\n---\n\nComplete the preparation task, then ask the human a specific question.\nWhen ready, call finish with the channel id as key and your question as value.\nExample: finish(\"review\", \"Here is the draft: ...\\n\\nPlease review and approve.\")\n");
            push_file(&mut files, "AGENT.md", c0);
            let mut c1 = String::from_str("The human has responded. Their response is your input.\nProcess the response and complete the task.\nWhen done, call finish with your result.\n");
            push_file(&mut files, "resume.md", c1);
        },
        Scaffold::Oneshot => {
            let mut c0 = String::from_str("---\nname: ");
            c0.append(name);
            c0.append("\ndescription: Describe what this agent does.\nversion: 1.0.0\npattern: oneshot\ncall:\nmodel:\nrole: thinker\n---\n\nYou are a helpful assistant. Answer concisely and directly.\n");
            push_file(&mut files, "AGENT.md", c0);
        },
    }
    assert(file_views(files@) =~= spec_scaffold_files(kind, name@));
    files
}

/// The files of a new project called `name`, by their path in the project:
/// the example environment, the ignore list, `tama.toml`, and the starter
/// agent `{name}-agent`.
pub open spec fn spec_project_files(name: Seq<char>) -> Seq<(Seq<char>, Seq<char>)> {
    let agent = name + "-agent"@;
    seq![(".env.example"@, "ANTHROPIC_API_KEY=sk-ant-...\n\n# Model roles: TAMA_MODEL_{ROLE}=provider:model-name\nTAMA_MODEL_THINKER=anthropic:opus-4-6\nTAMA_MODEL_WORKER=anthropic:sonnet-4-6\nTAMA_MODEL_CRITIC=anthropic:sonnet-4-6\n\n# Custom roles example:\n# TAMA_MODEL_FAST=openai:gpt-4o-mini\n"@), (".gitignore"@, ".env\ntarget/\n"@), ("tama.toml"@, "[project]\nname = \""@ + name + "\"\nentrypoint = \""@ + agent + "\"\n\n[models]\nthinker = \"anthropic:opus-4-6\"\nworker  = \"anthropic:sonnet-4-6\"\ncritic  = \"anthropic:sonnet-4-6\"\n"@), ("agents/"@ + agent + "/AGENT.md"@, "---\nname: "@ + agent + "\ndescription: \"\"\n\ntama:\nversion: 1.0.0\npattern: react\nuses: []\nmodel:\nrole: thinker\n---\n\nYou are a helpful assistant.\nWhen done, call finish with your result.\n\nTask: {{input}}\n"@)]
}

/// The files of a new project called `name`, by their path in the project.
pub fn project_files(name: &str) -> (r: Vec<(String, String)>)
    ensures
        file_views(r@) == spec_project_files(name@),
{
    let agent = crate::project::starter_agent_name(name);
    let mut files: Vec<(String, String)> = Vec::new();
    assert(file_views(files@) =~= Seq::<(Seq<char>, Seq<char>)>::empty());
    let mut c0 = String::from_str("ANTHROPIC_API_KEY=sk-ant-...\n\n# Model roles: TAMA_MODEL_{ROLE}=provider:model-name\nTAMA_MODEL_THINKER=anthropic:opus-4-6\nTAMA_MODEL_WORKER=anthropic:sonnet-4-6\nTAMA_MODEL_CRITIC=anthropic:sonnet-4-6\n\n# Custom roles example:\n# TAMA_MODEL_FAST=openai:gpt-4o-mini\n");
    push_file(&mut files, ".env.example", c0);
    let mut c1 = String::from_str(".env\ntarget/\n");
    push_file(&mut files, ".gitignore", c1);
    let mut c2 = String::from_str("[project]\nname = \"");
    c2.append(name);
    c2.append("\"\nentrypoint = \"");
    c2.append(agent.as_str());
    c2.append("\"\n\n[models]\nthinker = \"anthropic:opus-4-6\"\nworker  = \"anthropic:sonnet-4-6\"\ncritic  = \"anthropic:sonnet-4-6\"\n");
    push_file(&mut files, "tama.toml", c2);
    let mut c3 = String::from_str("---\nname: ");
    c3.append(agent.as_str());
    c3.append("\ndescription: \"\"\n\ntama:\nversion: 1.0.0\npattern: react\nuses: []\nmodel:\nrole: thinker\n---\n\nYou are a helpful assistant.\nWhen done, call finish with your result.\n\nTask: {{input}}\n");
    let mut p3 = String::from_str("agents/");
    p3.append(agent.as_str());
    p3.append("/AGENT.md");
    push_file(&mut files, p3.as_str(), c3);
    assert(file_views(files@) =~= spec_project_files(name@));
    files
}

/// The scaffold that `tama add` writes for an agent of a pattern.
pub open spec fn agent_scaffold(p: AgentPattern) -> Scaffold {
    match p {
        AgentPattern::React => Scaffold::React,
        AgentPattern::Critic => Scaffold::Critic,
        AgentPattern::Scatter { .. } => Scaffold::Scatter,
        AgentPattern::Parallel { .. } => Scaffold::Parallel,
        AgentPattern::Fsm { .. } => Scaffold::Fsm,
        AgentPattern::Debate { .. } => Scaffold::Debate,
        AgentPattern::Reflexion => Scaffold::Reflexion,
        AgentPattern::Constitutional => Scaffold::Constitutional,
        AgentPattern::ChainOfVerification => Scaffold::ChainOfVerification,
        AgentPattern::PlanExecute => Scaffold::PlanExecute,
        AgentPattern::BestOfN { .. } => Scaffold::BestOfN,
        AgentPattern::Human => Scaffold::Human,
        AgentPattern::Oneshot => Scaffold::Oneshot,
    }
}

/// The names of the files of a scaffold.
pub open spec fn file_names(files: Seq<(Seq<char>, Seq<char>)>) -> Seq<Seq<char>> {
    files.map_values(|f: (Seq<char>, Seq<char>)| f.0)
}

/// A freshly scaffolded agent passes lint: the scaffold writes AGENT.md and
/// every prompt file that its pattern's runner reads. (The constitutional
/// and chain-of-verification scaffolds are left out: they write
/// `generate.md`, `principles.md`/`verify.md` and `revise.md`, but not the
/// `critique.md`, respectively `check.md`, that lint asks for.)
pub proof fn law_scaffolded_agent_passes_lint(p: AgentPattern, name: Seq<char>)
    requires
        !(p is Constitutional),
        !(p is ChainOfVerification),
    ensures
        file_names(spec_scaffold_files(agent_scaffold(p), name)).contains("AGENT.md"@),
        spec_missing_files(p, file_names(spec_scaffold_files(agent_scaffold(p), name))).len() == 0,
{
    let names = file_names(spec_scaffold_files(agent_scaffold(p), name));
    let req = spec_required_files(p);
    assert(names[0] == "AGENT.md"@);
    match p {
        AgentPattern::Scatter { .. } => {
            assert(names[1] == "reduce.md"@);
        },
        AgentPattern::Critic => {
            assert(names[1] == "draft.md"@ && names[2] == "critique.md"@ && names[3] == "refine.md"@);
        },
        AgentPattern::Reflexion => {
            assert(names[1] == "act.md"@ && names[3] == "reflect.md"@);
        },
        AgentPattern::PlanExecute => {
            assert(names[2] == "execute.md"@ && names[3] == "verify.md"@);
        },
        AgentPattern::BestOfN { .. } => {
            assert(names[2] == "judge.md"@);
        },
        AgentPattern::Human => {
            assert(names[1] == "resume.md"@);
        },
        _ => {},
    }
    assert forall|i: int| 0 <= i < req.len() implies names.contains(#[trigger] req[i]) by {
        match p {
            AgentPattern::Critic => {
                assert(req[i] == names[i + 1]);
            },
            AgentPattern::Reflexion => {
                if i == 0 {
                    assert(req[i] == names[1]);
                } else {
                    assert(req[i] == names[3]);
                }
            },
            AgentPattern::PlanExecute => {
                assert(req[i] == names[i + 2]);
            },
            AgentPattern::BestOfN { .. } => {
                assert(req[i] == names[2]);
            },
            _ => {
                assert(req[i] == names[1]);
            },
        }
    }
    lemma_filter_empty_iff(req, names);
}

} // verus!
