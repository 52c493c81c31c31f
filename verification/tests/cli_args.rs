use nibl_search::cli::{parse_arguments, wants_help, CliOutcome};

fn prog() -> String {
    "nibl_search".to_string()
}

fn args(list: &[&str]) -> Vec<String> {
    list.iter().map(|s| s.to_string()).collect()
}

#[test]
fn help_alone_yields_usage() {
    match parse_arguments(&prog(), &args(&["-h"])) {
        CliOutcome::Help(usage) => {
            assert!(!usage.is_empty());
            assert!(usage.starts_with("Usage: nibl_search "));
            // The full text goes beyond the brief line: it lists each
            // option's row and description.
            assert!(usage.contains("-b, --query QUERY"));
            assert!(usage.contains("-e, --episode NUMBER"));
            assert!(usage.contains("-h, --help "));
            assert!(usage.contains("Query to run"));
            assert!(usage.contains("Episode number"));
            assert!(usage.contains("print this help menu"));
        }
        _ => panic!("expected help"),
    }
}

#[test]
fn help_takes_precedence_over_missing_query() {
    // No -b at all: help still wins and the outcome is not a usage error.
    match parse_arguments(&prog(), &args(&["--help"])) {
        CliOutcome::Help(usage) => assert!(!usage.is_empty()),
        _ => panic!("expected help"),
    }
}

#[test]
fn help_takes_precedence_over_other_flags() {
    match parse_arguments(&prog(), &args(&["-b", "foo", "-e", "5", "-h"])) {
        CliOutcome::Help(usage) => assert!(!usage.is_empty()),
        _ => panic!("expected help"),
    }
}

#[test]
fn missing_query_is_rejected_with_usage() {
    match parse_arguments(&prog(), &args(&[])) {
        CliOutcome::Usage(error, usage) => {
            assert_eq!(error, "Required option 'query' missing");
            assert!(usage.starts_with("Usage: nibl_search "));
        }
        _ => panic!("expected a usage error"),
    }
}

#[test]
fn unrecognized_option_is_rejected() {
    match parse_arguments(&prog(), &args(&["-x"])) {
        CliOutcome::Usage(error, _) => assert!(!error.is_empty()),
        _ => panic!("expected a usage error"),
    }
}

#[test]
fn query_is_parsed() {
    match parse_arguments(&prog(), &args(&["-b", "foo"])) {
        CliOutcome::Run(query, episode) => {
            assert_eq!(query, "foo");
            assert!(episode.is_none());
        }
        _ => panic!("expected a run"),
    }
}

#[test]
fn query_and_episode_are_parsed() {
    match parse_arguments(&prog(), &args(&["-b", "naruto", "-e", "5"])) {
        CliOutcome::Run(query, episode) => {
            assert_eq!(query, "naruto");
            assert_eq!(episode.as_deref(), Some("5"));
        }
        _ => panic!("expected a run"),
    }
}

#[test]
fn long_option_forms_are_parsed() {
    match parse_arguments(&prog(), &args(&["--query", "bleach", "--episode", "12"])) {
        CliOutcome::Run(query, episode) => {
            assert_eq!(query, "bleach");
            assert_eq!(episode.as_deref(), Some("12"));
        }
        _ => panic!("expected a run"),
    }
}

#[test]
fn wants_help_scans_the_whole_list() {
    assert!(wants_help(&args(&["-b", "foo", "--help"])));
    assert!(wants_help(&args(&["-h"])));
    assert!(!wants_help(&args(&["-b", "foo"])));
    assert!(!wants_help(&args(&[])));
}
