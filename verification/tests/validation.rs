use noot::coordinator::Coordinator;
use noot::coordinator::Manager;
use noot::errors::ValidationError;

fn coordinator_with(entries: Vec<&str>) -> Coordinator {
    let entries: Vec<String> = entries.into_iter().map(|e| e.to_owned()).collect();
    Coordinator::new(
        "/home/me/.config/noot/".to_owned(),
        "https://nodejs.org/dist/".to_owned(),
        "darwin-arm64".to_owned(),
        &entries,
    )
}

fn empty_coordinator() -> Coordinator {
    coordinator_with(vec!["using"])
}

#[test]
fn unknown_command_is_rejected() {
    let c = empty_coordinator();
    assert_eq!(
        c.validate("frobnicate", &vec![]),
        Err(ValidationError::UnknownCommand)
    );
    assert_eq!(
        c.validate("rc", &vec![]),
        Err(ValidationError::UnknownCommand)
    );
    assert_eq!(
        c.validate("", &vec![]),
        Err(ValidationError::UnknownCommand)
    );
    assert_eq!(
        c.validate("ADD", &vec!["1.2.3".to_owned()]),
        Err(ValidationError::UnknownCommand)
    );
}

#[test]
fn known_commands_without_arguments() {
    let c = empty_coordinator();
    assert_eq!(c.validate("info", &vec![]), Ok(()));
    assert_eq!(c.validate("list", &vec![]), Ok(()));
    assert_eq!(c.validate("add", &vec![]), Err(ValidationError::UsageError));
    assert_eq!(c.validate("set", &vec![]), Err(ValidationError::UsageError));
    assert_eq!(
        c.validate("remove", &vec![]),
        Err(ValidationError::UsageError)
    );
}

#[test]
fn known_commands_with_too_many_arguments() {
    let c = coordinator_with(vec!["node-v1.2.3-darwin-arm64"]);
    let two = vec!["1.2.3".to_owned(), "4.5.6".to_owned()];
    assert_eq!(c.validate("add", &two), Err(ValidationError::UsageError));
    assert_eq!(c.validate("set", &two), Err(ValidationError::UsageError));
    assert_eq!(c.validate("remove", &two), Err(ValidationError::UsageError));
    assert_eq!(
        c.validate("info", &vec!["x".to_owned()]),
        Err(ValidationError::UsageError)
    );
    assert_eq!(
        c.validate("list", &vec!["x".to_owned()]),
        Err(ValidationError::UsageError)
    );
}

#[test]
fn set_and_remove_need_an_installed_version() {
    let c = empty_coordinator();
    let args = vec!["1.2.3".to_owned()];
    assert_eq!(
        c.validate("set", &args),
        Err(ValidationError::VersionNotInstalled)
    );
    assert_eq!(
        c.validate("remove", &args),
        Err(ValidationError::VersionNotInstalled)
    );

    let c = coordinator_with(vec!["using", "node-v1.2.3-darwin-arm64"]);
    assert_eq!(c.validate("set", &args), Ok(()));
    assert_eq!(c.validate("remove", &args), Ok(()));
    let other = vec!["9.9.9".to_owned()];
    assert_eq!(
        c.validate("set", &other),
        Err(ValidationError::VersionNotInstalled)
    );
}

#[test]
fn add_needs_no_installed_version() {
    let absent = empty_coordinator();
    let present = coordinator_with(vec!["node-v1.2.3-darwin-arm64"]);
    let args = vec!["1.2.3".to_owned()];
    assert_eq!(absent.validate("add", &args), Ok(()));
    assert_eq!(present.validate("add", &args), Ok(()));
}

#[test]
fn usage_error_comes_before_installed_check() {
    // Wrong arity on `set`/`remove` is a usage error even when the named
    // versions are not installed.
    let c = empty_coordinator();
    let two = vec!["1.2.3".to_owned(), "4.5.6".to_owned()];
    assert_eq!(c.validate("set", &two), Err(ValidationError::UsageError));
    assert_eq!(c.validate("remove", &two), Err(ValidationError::UsageError));
}

#[test]
fn error_messages() {
    assert_eq!(
        ValidationError::UnknownCommand.message(),
        "USAGE: <INFO | ADD | SET | LIST | REMOVE>"
    );
    assert_eq!(
        ValidationError::UsageError.message(),
        "Please supply 1 and only 1 version"
    );
    assert_eq!(
        ValidationError::VersionNotInstalled.message(),
        "Node version does not exist"
    );
}
