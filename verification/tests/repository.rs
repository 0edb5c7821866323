use tokeihub::repository::RepositoryIdentity;

fn widgets() -> RepositoryIdentity {
    RepositoryIdentity::new("acme".to_string(), "widgets".to_string())
}

#[test]
fn identity_keeps_owner_and_name() {
    let id = widgets();
    assert_eq!(id.owner, "acme");
    assert_eq!(id.name, "widgets");
}

#[test]
fn metadata_url_names_owner_and_repository() {
    assert_eq!(widgets().metadata_url(), "https://api.github.com/repos/acme/widgets");
}

#[test]
fn fetch_url_without_credential_is_public() {
    assert_eq!(widgets().fetch_url(None), "https://github.com/acme/widgets");
}

#[test]
fn fetch_url_with_credential_holds_it_in_the_authority() {
    assert_eq!(
        widgets().fetch_url(Some("s3cr3t")),
        "https://s3cr3t@github.com/acme/widgets"
    );
}

#[test]
fn fetch_url_with_empty_credential() {
    assert_eq!(widgets().fetch_url(Some("")), "https://@github.com/acme/widgets");
}

#[test]
fn workspace_path_is_under_the_scratch_directory() {
    assert_eq!(widgets().workspace_path(), "./repos/acme/widgets");
}

#[test]
fn workspace_path_is_the_same_for_the_same_identity() {
    assert_eq!(widgets().workspace_path(), widgets().workspace_path());
}
