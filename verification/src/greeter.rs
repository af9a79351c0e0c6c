//! The greeter tool: it greets a person by name in the language that the
//! shared context is set to.

use vstd::prelude::*;
use std::sync::Arc;
use crate::error::tool_error;
use crate::text::{lemma_mentions_itself, mentions, same_text};
use yart::ToolError;

verus! {

/// What the greeter says of a language that it does not speak.
pub const UNSUPPORTED_LANGUAGE: &'static str = "Unsupported language";

/// What every call of a tool may read and none may change. It is made once
/// and handed to the tools behind an `Arc`.
///
/// The language code is taken as it comes: a code that no tool understands
/// is found out by the first call that needs it, not here.
#[derive(Clone, Debug, PartialEq, Eq)]
pub struct AppContext {
    /// `"en"` for English, `"es"` for Spanish.
    pub language: String,
}

/// A request to the greeter: the name of the person to greet.
#[derive(Debug, PartialEq, Eq)]
pub struct GreetArgs {
    pub name: String,
}

/// The greeter's answer.
#[derive(Debug, PartialEq, Eq)]
pub struct GreetOutput {
    pub message: String,
}

/// The languages that the greeter speaks.
#[derive(Clone, Copy, Debug, PartialEq, Eq, Structural)]
pub enum Language {
    English,
    Spanish,
}

impl Language {
    /// The language that a code stands for. Codes are matched letter for
    /// letter: `"EN"` stands for nothing.
    pub open spec fn coded(code: Seq<char>) -> Option<Language> {
        if code == "en"@ {
            Some(Language::English)
        } else if code == "es"@ {
            Some(Language::Spanish)
        } else {
            None
        }
    }

    /// The greeting for `name` in this language. The name stands in it as
    /// it was given, whatever characters it holds.
    pub open spec fn greeting(self, name: Seq<char>) -> Seq<char> {
        match self {
            Language::English => "Hello, "@ + name + "!"@,
            Language::Spanish => "¡Hola, "@ + name + "!"@,
        }
    }

    /// Reads a language code. A code that stands for no language is
    /// answered with an error.
    pub fn parse(code: &str) -> (parsed: Result<Language, ToolError>)
        ensures
            match Language::coded(code@) {
                Some(language) => parsed matches Ok(found) && found == language,
                None => parsed matches Err(error) && error.0@ == UNSUPPORTED_LANGUAGE@,
            },
    {
        if same_text(code, "en") {
            Ok(Language::English)
        } else if same_text(code, "es") {
            Ok(Language::Spanish)
        } else {
            Err(tool_error(UNSUPPORTED_LANGUAGE))
        }
    }

    /// Writes the greeting for `name` in this language.
    pub fn greet(self, name: &str) -> (message: String)
        ensures
            message@ == self.greeting(name@),
    {
        let mut message = match self {
            Language::English => String::from_str("Hello, "),
            Language::Spanish => String::from_str("¡Hola, "),
        };
        message.append(name);
        message.append("!");
        message
    }
}

/// The two language codes are different codes.
pub proof fn lemma_codes_differ()
    ensures
        "en"@ != "es"@,
        Language::coded("en"@) == Some(Language::English),
        Language::coded("es"@) == Some(Language::Spanish),
{
    reveal_strlit("en");
    reveal_strlit("es");
    assert("en"@[1] != "es"@[1]);
}

/// The greeter tool. With the context set to `"en"` it answers
/// `Hello, {name}!`, set to `"es"` it answers `¡Hola, {name}!`. Set to
/// anything else it refuses, whatever the name.
pub fn greeter(ctx: Arc<AppContext>, args: GreetArgs) -> (answer: Result<GreetOutput, ToolError>)
    ensures
        ctx.language@ == "en"@ ==> (answer matches Ok(output) && output.message@ == "Hello, "@
            + args.name@ + "!"@),
        ctx.language@ == "es"@ ==> (answer matches Ok(output) && output.message@ == "¡Hola, "@
            + args.name@ + "!"@),
        ctx.language@ != "en"@ && ctx.language@ != "es"@ ==> (answer matches Err(error)
            && error.0@ == UNSUPPORTED_LANGUAGE@ && mentions(error.0@, "Unsupported language"@)),
{
    proof {
        lemma_codes_differ();
        lemma_mentions_itself(UNSUPPORTED_LANGUAGE@);
    }
    match Language::parse(ctx.language.as_str()) {
        Ok(language) => Ok(GreetOutput { message: language.greet(args.name.as_str()) }),
        Err(error) => Err(error),
    }
}

} // verus!
