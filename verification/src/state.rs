//! Service configuration (the AI traverser's settings, the access password) and
//! the error every handler reports.

use vstd::prelude::*;

use crate::text::{to_string, trim, trim_spec};

verus! {

/// Configuration of the AI traverser.
pub struct AiConfig {
    pub api_key: Option<String>,
    pub model: String,
    pub max_continuations: usize,
}

/// A failed request: the message the client sees.
pub struct AppError {
    pub message: String,
}

impl AppError {
    pub fn new(message: &str) -> (e: AppError)
        ensures
            e.message@ == message@,
    {
        AppError { message: to_string(message) }
    }

    /// The error for a request naming a session that does not exist.
    pub fn no_such_session() -> (e: AppError)
        ensures
            e.message@ == "no such session"@,
    {
        AppError::new("no such session")
    }
}

pub open spec fn opt_view(o: Option<String>) -> Option<Seq<char>> {
    match o {
        Some(s) => Some(s@),
        None => None,
    }
}

/// The trimmed file content, unless it is blank.
pub open spec fn file_secret(file: Option<Seq<char>>) -> Option<Seq<char>> {
    match file {
        Some(f) => if trim_spec(f).len() > 0 {
            Some(trim_spec(f))
        } else {
            None
        },
        None => None,
    }
}

/// The model API key: the environment value when set (as it is), else the
/// trimmed key file, unless blank.
pub open spec fn api_key_spec(env: Option<Seq<char>>, file: Option<Seq<char>>) -> Option<Seq<char>> {
    match env {
        Some(k) => Some(k),
        None => file_secret(file),
    }
}

/// The access password: the environment value unless empty, else the trimmed
/// password file, unless blank.
pub open spec fn password_spec(env: Option<Seq<char>>, file: Option<Seq<char>>) -> Option<Seq<char>> {
    match env {
        Some(p) => if p.len() > 0 {
            Some(p)
        } else {
            file_secret(file)
        },
        None => file_secret(file),
    }
}

fn secret_from_file(file: Option<String>) -> (r: Option<String>)
    ensures
        opt_view(r) == file_secret(opt_view(file)),
{
    match file {
        Some(f) => {
            let t = trim(f.as_str());
            if t.unicode_len() > 0 {
                Some(to_string(t))
            } else {
                None
            }
        },
        None => None,
    }
}

/// Chooses the model API key from the environment value and the key file.
pub fn api_key_from(env: Option<String>, file: Option<String>) -> (r: Option<String>)
    ensures
        opt_view(r) == api_key_spec(opt_view(env), opt_view(file)),
{
    match env {
        Some(k) => Some(k),
        None => secret_from_file(file),
    }
}

/// Chooses the access password from the environment value and the password file.
pub fn password_from(env: Option<String>, file: Option<String>) -> (r: Option<String>)
    ensures
        opt_view(r) == password_spec(opt_view(env), opt_view(file)),
{
    match env {
        Some(p) => if p.as_str().unicode_len() > 0 {
            Some(p)
        } else {
            secret_from_file(file)
        },
        None => secret_from_file(file),
    }
}

/// The traverser configuration: the chosen key, the given model or else the
/// default model, and at most 16 model replies per chat.
pub fn ai_config(api_key: Option<String>, model: Option<String>, default_model: &str) -> (c:
    AiConfig)
    ensures
        opt_view(c.api_key) == opt_view(api_key),
        c.model@ == match model {
            Some(m) => m@,
            None => default_model@,
        },
        c.max_continuations == 16,
{
    let model = match model {
        Some(m) => m,
        None => to_string(default_model),
    };
    AiConfig { api_key, model, max_continuations: 16 }
}

/// The key a chat needs, or the error explaining that the traverser is off.
pub fn require_api_key(ai: &AiConfig) -> (r: Result<String, AppError>)
    ensures
        match r {
            Ok(k) => ai.api_key matches Some(x) && k@ == x@,
            Err(e) => ai.api_key is None && e.message@
                == "AI Traverser disabled: set ANTHROPIC_API_KEY or /etc/hatchery/anthropic-key"@,
        },
{
    match &ai.api_key {
        Some(k) => Ok(to_string(k.as_str())),
        None => Err(
            AppError::new(
                "AI Traverser disabled: set ANTHROPIC_API_KEY or /etc/hatchery/anthropic-key",
            ),
        ),
    }
}

} // verus!
