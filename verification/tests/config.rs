use notgrep::{run, ArgumentError, Config};

fn args(words: &[&str]) -> Vec<String> {
    words.iter().map(|word| String::from(*word)).collect()
}

#[test]
fn no_argument_is_a_missing_query() {
    let made = Config::new(&args(&[]), None);
    assert_eq!(Some(ArgumentError::MissingQuery), made.err());
    let made = Config::new(&args(&[]), Some("1"));
    assert_eq!(Some(ArgumentError::MissingQuery), made.err());
}

#[test]
fn one_argument_is_a_missing_file_path() {
    let made = Config::new(&args(&["needle"]), None);
    assert_eq!(Some(ArgumentError::MissingFilePath), made.err());
}

#[test]
fn error_messages() {
    assert_eq!("Didn't get a query string", ArgumentError::MissingQuery.message());
    assert_eq!("Didn't get a file name", ArgumentError::MissingFilePath.message());
}

#[test]
fn two_arguments_are_query_and_file_path() {
    let config = Config::new(&args(&["needle", "haystack.txt"]), None).unwrap();
    assert_eq!("needle", config.query());
    assert_eq!("haystack.txt", config.file_path());
    assert!(config.case_sensitive());
}

#[test]
fn further_arguments_are_ignored() {
    let config = Config::new(&args(&["needle", "haystack.txt", "more", "-x"]), None).unwrap();
    assert_eq!("needle", config.query());
    assert_eq!("haystack.txt", config.file_path());
    assert!(config.case_sensitive());
}

#[test]
fn switch_with_any_value_makes_the_search_case_insensitive() {
    let words = args(&["needle", "haystack.txt"]);
    assert!(!Config::new(&words, Some("1")).unwrap().case_sensitive());
    assert!(!Config::new(&words, Some("0")).unwrap().case_sensitive());
    assert!(!Config::new(&words, Some("")).unwrap().case_sensitive());
    assert!(Config::new(&words, None).unwrap().case_sensitive());
}

#[test]
fn empty_query_is_a_query() {
    let config = Config::new(&args(&["", "haystack.txt"]), None).unwrap();
    assert_eq!("", config.query());
}

#[test]
fn run_searches_in_the_configured_case() {
    let contents = "This\nis a TEST string\nfor the tests";
    let words = args(&["tEsT", "poem.txt"]);
    let exact = Config::new(&words, None).unwrap();
    assert!(run(&exact, contents).is_empty());
    let folded = Config::new(&words, Some("yes")).unwrap();
    assert_eq!(vec!["is a TEST string", "for the tests"], run(&folded, contents));
}

#[test]
fn run_with_a_literal_query() {
    let contents = "This\nis a test string\nfor the tests";
    let config = Config::new(&args(&["for", "poem.txt"]), None).unwrap();
    assert_eq!(vec!["for the tests"], run(&config, contents));
    let config = Config::new(&args(&["nothing", "poem.txt"]), None).unwrap();
    assert!(run(&config, contents).is_empty());
}
