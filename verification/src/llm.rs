//! What the LLM client decides: the model name handed to the provider
//! library, the role shown in traces, the API key of a direct model
//! reference, token counts, the debugger's display of a response, and what
//! a pre-call decision does to the request.
use vstd::prelude::*;
use vstd::string::StringExecFns;

use crate::manifest::{ModelRef, Provider};
use crate::registry::{env_value, provider_api_key_env, spec_provider_api_key_env, ResolvedModel};
use crate::strmap::Env;
use crate::text::{join, join_strings};
use crate::tools::views;

verus! {

/// The model name handed to the provider library: Ollama models carry the
/// `ollama::` prefix by which it picks its adapter.
pub open spec fn spec_genai_model_name(provider: Provider, model_name: Seq<char>) -> Seq<char> {
    match provider {
        Provider::Ollama => "ollama::"@ + model_name,
        _ => model_name,
    }
}

/// The model name handed to the provider library.
pub fn genai_model_name(provider: &Provider, model_name: &str) -> (r: String)
    ensures
        r@ == spec_genai_model_name(*provider, model_name@),
{
    match provider {
        Provider::Ollama => {
            let mut r = String::from_str("ollama::");
            r.append(model_name);
            r
        },
        _ => model_name.to_owned(),
    }
}

/// The role a client shows in traces: the model's role, or `custom` for a
/// model that came from no role.
pub open spec fn spec_client_role(role: Seq<char>) -> Seq<char> {
    if role.len() == 0 {
        "custom"@
    } else {
        role
    }
}

/// The role a client shows in traces.
pub fn client_role(role: &str) -> (r: String)
    ensures
        r@ == spec_client_role(role@),
{
    if role.unicode_len() == 0 {
        String::from_str("custom")
    } else {
        role.to_owned()
    }
}

/// The API key of a direct model reference: Ollama needs none and gets the
/// dummy key `ollama`; the others read their provider's variable.
pub open spec fn spec_model_ref_key(provider: Provider, env: Map<Seq<char>, Seq<char>>) -> Result<
    Seq<char>,
    Seq<char>,
> {
    if provider == Provider::Ollama {
        Ok("ollama"@)
    } else {
        match env_value(env, spec_provider_api_key_env(provider)) {
            Some(k) => Ok(k),
            None => Err(spec_provider_api_key_env(provider) + " is not set"@),
        }
    }
}

/// The API key of a direct model reference, or the error when its variable
/// is not set.
pub fn model_ref_key(provider: &Provider, env: &Env) -> (r: Result<String, String>)
    ensures
        match r {
            Ok(k) => spec_model_ref_key(*provider, env@) == Ok::<Seq<char>, Seq<char>>(k@),
            Err(e) => spec_model_ref_key(*provider, env@) == Err::<Seq<char>, Seq<char>>(e@),
        },
{
    if *provider == Provider::Ollama {
        return Ok(String::from_str("ollama"));
    }
    let var = provider_api_key_env(provider);
    match env.get(var) {
        Some(k) => Ok(k),
        None => {
            let mut e = var.to_owned();
            e.append(" is not set");
            Err(e)
        },
    }
}

/// The resolved model of a direct model reference: no role, no overrides,
/// no custom endpoint.
pub fn resolved_from_ref(model_ref: &ModelRef, env: &Env) -> (r: Result<ResolvedModel, String>)
    ensures
        match r {
            Ok(m) => spec_model_ref_key(model_ref.provider, env@) == Ok::<Seq<char>, Seq<char>>(
                m.api_key@,
            ) && m.role@ == Seq::<char>::empty() && m.provider == model_ref.provider
                && m.model_name@ == model_ref.model@ && m.temperature is None && m.max_tokens is None
                && m.base_url is None,
            Err(e) => spec_model_ref_key(model_ref.provider, env@) == Err::<Seq<char>, Seq<char>>(
                e@,
            ),
        },
{
    let api_key = model_ref_key(&model_ref.provider, env)?;
    Ok(
        ResolvedModel {
            role: String::new(),
            provider: model_ref.provider,
            model_name: model_ref.model.clone(),
            temperature: None,
            max_tokens: None,
            api_key,
            base_url: None,
        },
    )
}

/// A token count as the provider reports it: missing or negative counts as 0.
pub open spec fn spec_token_count(n: Option<i32>) -> u32 {
    match n {
        Some(k) => if k > 0 {
            k as u32
        } else {
            0
        },
        None => 0,
    }
}

/// A token count as the provider reports it.
pub fn token_count(n: Option<i32>) -> (r: u32)
    ensures
        r == spec_token_count(n),
{
    match n {
        Some(k) => if k > 0 {
            k as u32
        } else {
            0
        },
        None => 0,
    }
}

/// The debugger's line for a tool call in a response.
pub fn tool_line(name: &str, args_text: &str) -> (r: String)
    ensures
        r@ == "  tool: "@ + name@ + "("@ + args_text@ + ")"@,
{
    let mut r = String::from_str("  tool: ");
    r.append(name);
    r.append("(");
    r.append(args_text);
    r.append(")");
    r
}

/// What the debugger shows of a response: its text and its tool calls, one
/// per line.
pub open spec fn spec_response_display(text: Seq<char>, tool_lines: Seq<Seq<char>>) -> Seq<char> {
    if text.len() == 0 {
        join(tool_lines, "\n"@)
    } else if tool_lines.len() == 0 {
        text
    } else {
        text + "\n"@ + join(tool_lines, "\n"@)
    }
}

/// What the debugger shows of a response.
pub fn response_display(text: &str, tool_lines: &Vec<String>) -> (r: String)
    ensures
        r@ == spec_response_display(text@, views(tool_lines@)),
{
    let lines = join_strings(tool_lines, "\n");
    if text.unicode_len() == 0 {
        lines
    } else if tool_lines.len() == 0 {
        text.to_owned()
    } else {
        let mut r = text.to_owned();
        r.append("\n");
        r.append(lines.as_str());
        r
    }
}

/// What the debugger decides before an LLM call.
#[derive(Debug, Clone, PartialEq, Eq)]
pub enum PreCallDecision {
    /// Make the call, with the system prompt replaced when one is given.
    Proceed { system_override: Option<String> },
    /// Stop the run.
    Quit,
}

/// What a pre-call decision does: the replacement system prompt (if any),
/// or the error that stops the run.
pub fn pre_call_system(decision: PreCallDecision) -> (r: Result<Option<String>, String>)
    ensures
        match decision {
            PreCallDecision::Proceed { system_override } => r == Ok::<Option<String>, String>(
                system_override,
            ),
            PreCallDecision::Quit => r matches Err(e) && e@ == "debug: user quit"@,
        },
{
    match decision {
        PreCallDecision::Proceed { system_override } => Ok(system_override),
        PreCallDecision::Quit => Err(String::from_str("debug: user quit")),
    }
}

} // verus!
