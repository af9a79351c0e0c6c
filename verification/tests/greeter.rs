use agent_tools::{greeter, AppContext, GreetArgs, GreetOutput, Language, UNSUPPORTED_LANGUAGE};
use std::sync::Arc;

fn context(language: &str) -> Arc<AppContext> {
    Arc::new(AppContext { language: language.to_string() })
}

fn greet(language: &str, name: &str) -> Result<GreetOutput, yart::ToolError> {
    greeter(context(language), GreetArgs { name: name.to_string() })
}

#[test]
fn greets_alice_in_spanish() {
    let answer = greet("es", "Alice");
    assert_eq!(answer.unwrap(), GreetOutput { message: "¡Hola, Alice!".to_string() });
}

#[test]
fn greets_bob_in_english() {
    let answer = greet("en", "Bob");
    assert_eq!(answer.unwrap(), GreetOutput { message: "Hello, Bob!".to_string() });
}

fn names() -> Vec<&'static str> {
    vec![
        "",
        " ",
        "Alice",
        "bob",
        "Ada Lovelace",
        "  padded  ",
        "José",
        "李雷",
        "🙂",
        "{}",
        "{name}",
        "%s",
        "<b>Eve</b>",
        "O'Brien",
        "a\nb",
        "tab\there",
        "!",
        "Hello, ",
    ]
}

#[test]
fn english_greeting_holds_the_name_as_given() {
    for name in names() {
        let output = greet("en", name).unwrap();
        assert_eq!(output.message, format!("Hello, {}!", name));
    }
}

#[test]
fn spanish_greeting_holds_the_name_as_given() {
    for name in names() {
        let output = greet("es", name).unwrap();
        assert_eq!(output.message, format!("¡Hola, {}!", name));
    }
}

#[test]
fn spanish_greeting_opens_with_an_inverted_mark() {
    let output = greet("es", "Alice").unwrap();
    assert_eq!(output.message.chars().next(), Some('¡'));
    assert_eq!(output.message.chars().count(), 13);
}

#[test]
fn refuses_a_language_it_does_not_speak() {
    let error = greet("fr", "Alice").unwrap_err();
    assert_eq!(error.0, "Unsupported language");
    assert_eq!(error.to_string(), "Unsupported language");
    assert_eq!(UNSUPPORTED_LANGUAGE, "Unsupported language");
}

#[test]
fn every_other_language_is_refused_whatever_the_name() {
    let others = vec!["fr", "de", "", "EN", "En", "ES", "en ", " en", "e", "english", "en-US", "es_ES", "en\n"];
    for language in others {
        for name in names() {
            let error = greet(language, name).unwrap_err();
            assert!(error.0.contains("Unsupported language"), "{:?}", language);
            assert_eq!(error.0, UNSUPPORTED_LANGUAGE, "{:?}", language);
        }
    }
}

#[test]
fn a_context_is_checked_when_it_is_used() {
    let ctx = context("tlh");
    assert_eq!(ctx.language, "tlh");
    let first = greeter(ctx.clone(), GreetArgs { name: "Alice".to_string() });
    assert_eq!(first.unwrap_err().0, UNSUPPORTED_LANGUAGE);
    let second = greeter(ctx, GreetArgs { name: "Bob".to_string() });
    assert_eq!(second.unwrap_err().0, UNSUPPORTED_LANGUAGE);
}

#[test]
fn a_context_serves_many_calls_unchanged() {
    let ctx = context("es");
    let before = (*ctx).clone();
    for name in names() {
        let output = greeter(ctx.clone(), GreetArgs { name: name.to_string() }).unwrap();
        assert_eq!(output.message, format!("¡Hola, {}!", name));
    }
    assert_eq!(*ctx, before);
    assert_eq!(Arc::strong_count(&ctx), 1);
}

#[test]
fn calls_do_not_depend_on_one_another() {
    let spanish = context("es");
    let english = context("en");
    let one = greeter(spanish.clone(), GreetArgs { name: "Alice".to_string() }).unwrap();
    let refused = greet("fr", "Alice").unwrap_err();
    let two = greeter(english, GreetArgs { name: "Alice".to_string() }).unwrap();
    let three = greeter(spanish, GreetArgs { name: "Alice".to_string() }).unwrap();
    assert_eq!(one.message, "¡Hola, Alice!");
    assert_eq!(refused.0, "Unsupported language");
    assert_eq!(two.message, "Hello, Alice!");
    assert_eq!(three, one);
}

#[test]
fn language_codes_are_read_letter_for_letter() {
    assert_eq!(Language::parse("en").unwrap(), Language::English);
    assert_eq!(Language::parse("es").unwrap(), Language::Spanish);
    assert_ne!(Language::parse("en").unwrap(), Language::Spanish);
    for code in vec!["EN", "eS", "", "en es", "fr"] {
        assert_eq!(Language::parse(code).unwrap_err().0, UNSUPPORTED_LANGUAGE, "{:?}", code);
    }
}

#[test]
fn languages_write_their_greetings() {
    assert_eq!(Language::English.greet("Bob"), "Hello, Bob!");
    assert_eq!(Language::Spanish.greet("Alice"), "¡Hola, Alice!");
    assert_eq!(Language::English.greet(""), "Hello, !");
    assert_eq!(Language::Spanish.greet(""), "¡Hola, !");
}
