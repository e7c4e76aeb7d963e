use deps_status::error::Failure;
use deps_status::source::{accept_response, manifest_url};

#[test]
fn manifest_url_is_templated_from_owner_and_project() {
    assert_eq!(
        manifest_url("rust-lang", "cargo"),
        "https://raw.githubusercontent.com/rust-lang/cargo/master/Cargo.toml"
    );
    assert_eq!(manifest_url("", ""), "https://raw.githubusercontent.com///master/Cargo.toml");
}

#[test]
fn successful_response_gives_its_body() {
    assert_eq!(accept_response(200, Some("[package]".to_string())), Ok("[package]".to_string()));
    assert_eq!(accept_response(299, Some(String::new())), Ok(String::new()));
}

#[test]
fn response_outside_success_range_is_rejected() {
    assert_eq!(accept_response(404, Some("not found".to_string())), Err(Failure::BadStatus(404)));
    assert_eq!(accept_response(404, None), Err(Failure::BadStatus(404)));
    assert_eq!(accept_response(199, Some(String::new())), Err(Failure::BadStatus(199)));
    assert_eq!(accept_response(300, Some(String::new())), Err(Failure::BadStatus(300)));
    assert_eq!(accept_response(500, Some(String::new())), Err(Failure::BadStatus(500)));
    assert_eq!(accept_response(0, None), Err(Failure::BadStatus(0)));
}

#[test]
fn successful_response_without_readable_body_is_rejected() {
    assert_eq!(accept_response(200, None), Err(Failure::UnreadableBody));
}
