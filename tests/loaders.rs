use load_dotenv::{file_name_from_input, EnvFile, LoadFailure, Loader, Outcome};

fn halt(text: &str) -> Outcome {
    Outcome::Halt(text.to_string())
}

#[test]
fn file_name_strips_literal_quotes() {
    assert_eq!(file_name_from_input("\".env.test\""), ".env.test");
}

#[test]
fn file_name_without_quotes_is_kept() {
    assert_eq!(file_name_from_input(".env.local"), ".env.local");
}

#[test]
fn file_name_strips_every_quote_at_the_ends() {
    assert_eq!(file_name_from_input("\"\"a\"b\"\"\""), "a\"b");
}

#[test]
fn file_name_of_only_quotes_is_empty() {
    assert_eq!(file_name_from_input("\"\"\""), "");
    assert_eq!(file_name_from_input(""), "");
}

#[test]
fn file_name_keeps_other_characters() {
    assert_eq!(file_name_from_input("\" .énv \""), " .énv ");
    assert_eq!(file_name_from_input("'x'"), "'x'");
}

#[test]
fn default_loader_asks_for_default_file() {
    let loader = Loader::default_loader();
    assert_eq!(loader.file(), &EnvFile::Default);
    assert!(loader.is_required());
}

#[test]
fn named_loader_asks_only_for_its_file() {
    let loader = Loader::named_loader("\".env.test\"");
    assert_eq!(loader.file(), &EnvFile::Named(".env.test".to_string()));
    assert!(loader.is_required());
}

#[test]
fn best_effort_loader_asks_for_default_file() {
    let loader = Loader::best_effort_loader();
    assert_eq!(loader.file(), &EnvFile::Default);
    assert!(!loader.is_required());
}

#[test]
fn failure_messages_name_the_file() {
    assert_eq!(EnvFile::Default.failure_message(), "Failed to load .env file");
    assert_eq!(
        EnvFile::Named(".env.prod".to_string()).failure_message(),
        "Failed to load .env.prod file"
    );
}

#[test]
fn every_loader_proceeds_after_a_load() {
    assert_eq!(Loader::default_loader().outcome(&Ok(())), Outcome::Proceed);
    assert_eq!(Loader::named_loader("\"x\"").outcome(&Ok(())), Outcome::Proceed);
    assert_eq!(Loader::best_effort_loader().outcome(&Ok(())), Outcome::Proceed);
}

#[test]
fn missing_file_halts_default_loader() {
    let outcome = Loader::default_loader().outcome(&Err(LoadFailure::Unreadable));
    assert_eq!(outcome, halt("Failed to load .env file"));
}

#[test]
fn missing_file_halts_named_loader() {
    let outcome = Loader::named_loader("\".env.test\"").outcome(&Err(LoadFailure::Unreadable));
    assert_eq!(outcome, halt("Failed to load .env.test file"));
}

#[test]
fn missing_file_does_not_halt_best_effort_loader() {
    let outcome = Loader::best_effort_loader().outcome(&Err(LoadFailure::Unreadable));
    assert_eq!(outcome, Outcome::Proceed);
}

#[test]
fn malformed_file_halts_required_loaders() {
    assert_eq!(
        Loader::default_loader().outcome(&Err(LoadFailure::Malformed)),
        halt("Failed to load .env file")
    );
    assert_eq!(
        Loader::named_loader(".env.dev").outcome(&Err(LoadFailure::Malformed)),
        halt("Failed to load .env.dev file")
    );
    assert_eq!(
        Loader::best_effort_loader().outcome(&Err(LoadFailure::Malformed)),
        Outcome::Proceed
    );
}

#[test]
fn best_effort_loader_twice_never_halts() {
    let loader = Loader::best_effort_loader();
    let first = loader.outcome(&Err(LoadFailure::Unreadable));
    let second = loader.outcome(&Ok(()));
    assert_eq!(first, Outcome::Proceed);
    assert_eq!(second, Outcome::Proceed);
    let again = Loader::best_effort_loader();
    assert_eq!(again.outcome(&Err(LoadFailure::Malformed)), Outcome::Proceed);
    assert_eq!(again.outcome(&Err(LoadFailure::Unreadable)), Outcome::Proceed);
}
