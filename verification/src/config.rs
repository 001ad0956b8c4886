//! The configuration of one search, and the search that it asks for.

use vstd::prelude::*;
use crate::search::{matching_lines, matching_lines_folded, search, search_case_insensitive};
use crate::text::lines_of;

verus! {

/// Why an argument list gives no configuration.
#[derive(Debug, Clone, Copy, PartialEq, Eq, Structural)]
pub enum ArgumentError {
    /// The list is empty: there is nothing to search for.
    MissingQuery,
    /// The list holds the query alone: there is no file to search in.
    MissingFilePath,
}

impl ArgumentError {
    /// The characters of the one-line message for this error.
    pub open spec fn message_text(self) -> Seq<char> {
        match self {
            ArgumentError::MissingQuery => "Didn't get a query string"@,
            ArgumentError::MissingFilePath => "Didn't get a file name"@,
        }
    }

    /// The one-line message for this error.
    pub fn message(&self) -> (text: &'static str)
        ensures
            text@ == self.message_text(),
    {
        match self {
            ArgumentError::MissingQuery => "Didn't get a query string",
            ArgumentError::MissingFilePath => "Didn't get a file name",
        }
    }
}

/// What one search is made with. It does not change once it is built.
#[derive(Debug)]
pub struct Config {
    query: String,
    file_path: String,
    case_sensitive: bool,
}

/// A configuration as plain values.
pub ghost struct ConfigView {
    /// The characters to search for.
    pub query: Seq<char>,
    /// The path of the file to search in.
    pub file_path: Seq<char>,
    /// Whether a line must hold the query in the query's own case.
    pub case_sensitive: bool,
}

impl View for Config {
    type V = ConfigView;

    closed spec fn view(&self) -> ConfigView {
        ConfigView {
            query: self.query@,
            file_path: self.file_path@,
            case_sensitive: self.case_sensitive,
        }
    }
}

/// The lines that a search with `config` finds in `contents`.
pub open spec fn found_lines(config: ConfigView, contents: Seq<char>) -> Seq<Seq<char>> {
    if config.case_sensitive {
        matching_lines(lines_of(contents), config.query)
    } else {
        matching_lines_folded(lines_of(contents), config.query)
    }
}

impl Config {
    /// Builds the configuration from the arguments that follow the
    /// program's name and from the value of the switch for
    /// case-insensitive search, `None` where the switch is not set.
    ///
    /// The first argument is the query and the second the file's path;
    /// further arguments are ignored. The search is case-sensitive unless
    /// the switch is set, to whatever value.
    pub fn new(args: &[String], case_insensitive: Option<&str>) -> (made: Result<
        Config,
        ArgumentError,
    >)
        ensures
            args@.len() == 0 ==> made == Err::<Config, ArgumentError>(ArgumentError::MissingQuery),
            args@.len() == 1 ==> made == Err::<Config, ArgumentError>(
                ArgumentError::MissingFilePath,
            ),
            args@.len() >= 2 ==> made is Ok && made->Ok_0@ == (ConfigView {
                query: args@[0]@,
                file_path: args@[1]@,
                case_sensitive: case_insensitive is None,
            }),
    {
        if args.len() == 0 {
            return Err(ArgumentError::MissingQuery);
        }
        if args.len() == 1 {
            return Err(ArgumentError::MissingFilePath);
        }
        Ok(
            Config {
                query: args[0].clone(),
                file_path: args[1].clone(),
                case_sensitive: case_insensitive.is_none(),
            },
        )
    }

    /// The characters to search for.
    pub fn query(&self) -> (query: &str)
        ensures
            query@ == self@.query,
    {
        self.query.as_str()
    }

    /// The path of the file to search in.
    pub fn file_path(&self) -> (path: &str)
        ensures
            path@ == self@.file_path,
    {
        self.file_path.as_str()
    }

    /// Whether a line must hold the query in the query's own case.
    pub fn case_sensitive(&self) -> (yes: bool)
        ensures
            yes == self@.case_sensitive,
    {
        self.case_sensitive
    }
}

/// Searches `contents`, the text of the configured file, as `config`
/// asks: for the lines that contain the query, in the query's case or in
/// any. The lines come in the order in which they stand in `contents`.
pub fn run<'a>(config: &Config, contents: &'a str) -> (found: Vec<&'a str>)
    ensures
        found.deep_view() == found_lines(config@, contents@),
{
    if config.case_sensitive {
        search(config.query.as_str(), contents)
    } else {
        search_case_insensitive(config.query.as_str(), contents)
    }
}

} // verus!
