use pr_workflow::repo::{parse_repo_name, ParseError, RepositoryRef};

#[test]
fn parse_repo_name_works() {
    assert_eq!(
        parse_repo_name("graphql-rust/graphql-client").unwrap(),
        ("graphql-rust", "graphql-client")
    );
    assert!(parse_repo_name("abcd").is_err());
}

#[test]
fn parse_repo_name_without_separator_is_invalid_format() {
    assert_eq!(parse_repo_name("abcd"), Err(ParseError::InvalidRepositoryFormat));
    assert_eq!(parse_repo_name(""), Err(ParseError::InvalidRepositoryFormat));
}

#[test]
fn parse_repo_name_rejects_empty_owner() {
    assert_eq!(parse_repo_name("/graphql-client"), Err(ParseError::InvalidRepositoryFormat));
    assert_eq!(parse_repo_name("/"), Err(ParseError::InvalidRepositoryFormat));
}

#[test]
fn parse_repo_name_rejects_empty_name() {
    assert_eq!(parse_repo_name("graphql-rust/"), Err(ParseError::InvalidRepositoryFormat));
    assert_eq!(parse_repo_name("graphql-rust//client"), Err(ParseError::InvalidRepositoryFormat));
}

#[test]
fn parse_repo_name_stops_the_name_at_the_second_separator() {
    assert_eq!(parse_repo_name("a/b/c"), Ok(("a", "b")));
    assert_eq!(parse_repo_name("owner/name/"), Ok(("owner", "name")));
}

#[test]
fn parse_repo_name_counts_characters_not_bytes() {
    assert_eq!(parse_repo_name("żółw/łódź"), Ok(("żółw", "łódź")));
    assert_eq!(parse_repo_name("é/ü/ö"), Ok(("é", "ü")));
}

#[test]
fn parse_error_message_shows_the_expected_format() {
    let message = ParseError::InvalidRepositoryFormat.message();
    assert_eq!(
        message,
        "wrong format for the repository name param (we expect something like facebook/graphql)"
    );
    assert!(message.contains("facebook/graphql"));
}

#[test]
fn repository_ref_holds_both_parts() {
    let repository = RepositoryRef::parse("tomhoule/graphql-client").unwrap();
    assert_eq!(repository.owner(), "tomhoule");
    assert_eq!(repository.name(), "graphql-client");
    let copy = repository.clone();
    assert_eq!(copy, repository);
    assert_eq!(copy.owner(), "tomhoule");
    assert_eq!(copy.name(), "graphql-client");
}

#[test]
fn repository_ref_is_never_empty() {
    assert_eq!(RepositoryRef::parse("abcd"), Err(ParseError::InvalidRepositoryFormat));
    assert_eq!(RepositoryRef::parse("/x"), Err(ParseError::InvalidRepositoryFormat));
    assert_eq!(RepositoryRef::parse("x/"), Err(ParseError::InvalidRepositoryFormat));
}
