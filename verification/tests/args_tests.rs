use patchpal::args::{log_level, parse_repo, ArgError, Cli, Command, LogLevel};

fn parse(line: &str) -> Result<Cli, ArgError> {
    let args: Vec<String> = line.split_whitespace().map(|s| s.to_string()).collect();
    Cli::try_parse_from(args)
}

#[test]
fn successful_parsing() {
    parse("patchpal").unwrap();
    parse("patchpal -v").unwrap();
    parse("patchpal -vvv").unwrap();
    parse("patchpal server -v").unwrap();
    parse("patchpal server").unwrap();
    parse("patchpal client").unwrap();
    parse("patchpal client --path ../bar").unwrap();
    parse("patchpal client --repo foo/bar").unwrap();
    parse("patchpal client --repo foo/bar --pr-number 123").unwrap();
}

#[test]
fn successful_rejection() {
    parse("patchpal server client").unwrap_err();
    parse("patchpal server --path ../bar").unwrap_err();
    parse("patchpal client --branch-name branchy --pr-number 123").unwrap_err();
    parse("patchpal client --path ../bar --repo foo/bar").unwrap_err();
    parse("patchpal client --path ../bar --branch-name branchy").unwrap_err();
    parse("patchpal client --path ../bar --repo foo/bar --branch-name branchy").unwrap_err();
    parse("patchpal client --path ../bar --repo foo/bar --pr-number 123").unwrap_err();
    parse("patchpal client --branch-name branchy").unwrap_err();
    parse("patchpal client --pr-number 123").unwrap_err();
}

#[test]
fn verbosity_is_counted() {
    assert_eq!(parse("patchpal").unwrap().verbose, 0);
    assert_eq!(parse("patchpal -v").unwrap().verbose, 1);
    assert_eq!(parse("patchpal -vvv").unwrap().verbose, 3);
    assert_eq!(parse("patchpal --verbose -v server").unwrap().verbose, 2);
    assert_eq!(parse("patchpal server -v").unwrap().verbose, 1);
}

#[test]
fn parsed_fields_come_through() {
    let cli = parse("patchpal client --repo foo/bar --pr-number 123").unwrap();
    match cli.command {
        Some(Command::Client(m)) => {
            assert!(m.local.is_none());
            assert!(m.metadata.is_none());
            let github = m.github.unwrap();
            assert_eq!(github.repo, "foo/bar");
            assert_eq!(github.branch_id.pr_number, Some(123));
            assert_eq!(github.branch_id.branch_name, None);
        }
        other => panic!("wrong command: {:?}", other),
    }
}

#[test]
fn path_and_metadata_come_through() {
    let cli = parse("patchpal client --path ../bar build-42").unwrap();
    match cli.command {
        Some(Command::Client(m)) => {
            assert_eq!(m.local.unwrap().path.unwrap(), "../bar");
            assert!(m.github.is_none());
            assert_eq!(m.metadata.unwrap(), "build-42");
        }
        other => panic!("wrong command: {:?}", other),
    }
}

#[test]
fn no_subcommand_defaults_to_client() {
    let cli = parse("patchpal").unwrap();
    match cli.command() {
        Command::Client(m) => {
            assert!(m.local.is_some());
            assert!(m.local.unwrap().path.is_none());
            assert!(m.github.is_none());
            assert!(m.metadata.is_none());
        }
        Command::Server => panic!("expected the client default"),
    }
}

#[test]
fn each_error_has_its_cause() {
    assert_eq!(parse("patchpal --bogus").unwrap_err(), ArgError::UnknownArgument);
    assert_eq!(parse("patchpal client --path").unwrap_err(), ArgError::MissingValue);
    assert_eq!(
        parse("patchpal client --path a --path b").unwrap_err(),
        ArgError::DuplicateArgument
    );
    assert_eq!(parse("patchpal server stray").unwrap_err(), ArgError::UnexpectedArgument);
    assert_eq!(
        parse("patchpal client --path a --repo foo/bar").unwrap_err(),
        ArgError::Conflict
    );
    assert_eq!(
        parse("patchpal client --branch-name b --pr-number 1").unwrap_err(),
        ArgError::Conflict
    );
    assert_eq!(
        parse("patchpal client --branch-name b").unwrap_err(),
        ArgError::MissingRequirement
    );
    assert_eq!(parse("patchpal client --repo foobar").unwrap_err(), ArgError::InvalidRepo);
    assert_eq!(
        parse("patchpal client --repo a/b --pr-number nine").unwrap_err(),
        ArgError::InvalidNumber
    );
    assert_eq!(
        parse("patchpal client --repo a/b --pr-number 99999999999").unwrap_err(),
        ArgError::InvalidNumber
    );
}

#[test]
fn repo_validation_is_exact() {
    assert_eq!(parse_repo("owner/repo").unwrap(), "owner/repo");
    assert!(parse_repo("ownerrepo").is_err());
    assert!(parse_repo("a/b/c").is_err());
    assert!(parse_repo("/repo").is_err());
    assert!(parse_repo("owner/").is_err());
    assert!(parse_repo("/").is_err());
    assert!(parse_repo("").is_err());
}

#[test]
fn log_level_follows_verbosity() {
    assert_eq!(log_level(0), LogLevel::Off);
    assert_eq!(log_level(1), LogLevel::Warn);
    assert_eq!(log_level(2), LogLevel::Info);
    assert_eq!(log_level(3), LogLevel::Debug);
    assert_eq!(log_level(200), LogLevel::Debug);
}
