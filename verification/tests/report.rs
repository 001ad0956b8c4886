use notgrep::{
    exit_status, printed, run, ArgumentError, Config, Failure, EXIT_FAILURE, EXIT_SUCCESS,
};

#[test]
fn one_argument_is_reported_as_a_problem_with_the_arguments() {
    let words = vec![String::from("needle")];
    let failure = Failure::Argument(Config::new(&words, None).unwrap_err());
    let line = failure.report();
    assert!(line.contains("Problem parsing arguments"));
    assert_eq!("Problem parsing arguments: Didn't get a file name", line);
    assert_eq!(1, exit_status(&Err(failure)));
}

#[test]
fn missing_query_report() {
    let failure = Failure::Argument(ArgumentError::MissingQuery);
    assert_eq!("Problem parsing arguments: Didn't get a query string", failure.report());
}

#[test]
fn unreadable_file_is_reported_as_an_application_error() {
    let detail = String::from("No such file or directory (os error 2)");
    let failure = Failure::Io(detail);
    let line = failure.report();
    assert!(line.contains("Application error"));
    assert_eq!("Application error: No such file or directory (os error 2)", line);
    assert_eq!(1, exit_status(&Err(failure)));
}

#[test]
fn io_detail_is_reported_as_it_came() {
    assert_eq!("Application error: ", Failure::Io(String::new()).report());
    assert_eq!("Application error: é: x", Failure::Io(String::from("é: x")).report());
}

#[test]
fn no_match_is_a_success_without_output() {
    let words = vec![String::from("absent"), String::from("poem.txt")];
    let config = Config::new(&words, None).unwrap();
    let found = run(&config, "This\nis a test string\nfor the tests");
    assert!(found.is_empty());
    assert_eq!(0, exit_status(&Ok(())));
}

#[test]
fn exit_statuses() {
    assert_eq!(0, EXIT_SUCCESS);
    assert_eq!(1, EXIT_FAILURE);
    assert_eq!(EXIT_SUCCESS, exit_status(&Ok(())));
    assert_eq!(EXIT_FAILURE, exit_status(&Err(Failure::Argument(ArgumentError::MissingQuery))));
    assert_eq!(EXIT_FAILURE, exit_status(&Err(Failure::Io(String::from("denied")))));
}

#[test]
fn every_line_is_printed_with_a_line_feed() {
    let found = vec!["is a TEST string", "for the tests"];
    assert_eq!("is a TEST string\nfor the tests\n", printed(&found));
    assert_eq!("one\n", printed(&vec!["one"]));
    assert_eq!("\n\n", printed(&vec!["", ""]));
}

#[test]
fn nothing_found_prints_nothing() {
    assert_eq!("", printed(&Vec::new()));
    let words = vec![String::from("absent"), String::from("poem.txt")];
    let config = Config::new(&words, None).unwrap();
    assert_eq!("", printed(&run(&config, "This\nis a test string\nfor the tests")));
}

#[test]
fn printed_lines_of_a_search() {
    let words = vec![String::from("t"), String::from("poem.txt")];
    let config = Config::new(&words, Some("")).unwrap();
    let found = run(&config, "This\r\nis\r\nText\r\n");
    assert_eq!("This\nText\n", printed(&found));
}
