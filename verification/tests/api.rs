use crates_io_webapi::{
    crate_url, get_crate, resolve_envelope, Badge, Category, Crate, ErrorDetail, FullCrateDetails,
    GetCrateApiResponse, GetCrateError, GetCrateErrorResponse, Keyword, Links, TransportError,
};

fn found(name: &str) -> FullCrateDetails {
    FullCrateDetails {
        crate_: Crate {
            id: String::from(name),
            name: String::from(name),
            updated_at: String::from("2018-08-01T00:00:00Z"),
            versions: Vec::new(),
            keywords: vec![String::from("testing")],
            categories: vec![String::from("development-tools")],
            badges: vec![
                Badge::TravisCi { branch: None, repository: format!("owner/{}", name) },
                Badge::Appveyor {
                    id: None,
                    service: Some(String::from("github")),
                    repository: format!("owner/{}", name),
                    project_name: None,
                    branch: Some(String::from("master")),
                },
            ],
            created_at: String::from("2018-01-01T00:00:00Z"),
            downloads: 7,
            recent_downloads: 3,
            max_version: String::from("1.0.0"),
            description: String::from("a demonstration"),
            homepage: None,
            documentation: format!("https://docs.rs/{}", name),
            repository: Some(format!("https://example.org/owner/{}", name)),
            links: Links {
                version_downloads: format!("/api/v1/crates/{}/downloads", name),
                versions: Some(format!("/api/v1/crates/{}/versions", name)),
                owners: format!("/api/v1/crates/{}/owners", name),
                owner_team: format!("/api/v1/crates/{}/owner_team", name),
                owner_user: format!("/api/v1/crates/{}/owner_user", name),
                reverse_dependencies: format!("/api/v1/crates/{}/reverse_dependencies", name),
            },
            exact_match: true,
        },
        versions: Vec::new(),
        keywords: vec![Keyword {
            id: String::from("testing"),
            keyword: String::from("testing"),
            created_at: String::from("2014-11-21T00:00:00Z"),
            crates_cnt: 12,
        }],
        categories: vec![Category {
            id: String::from("development-tools"),
            category: String::from("Development tools"),
            slug: String::from("development-tools"),
            description: String::from("Tools for developers"),
            created_at: String::from("2017-01-17T00:00:00Z"),
            crates_cnt: 99,
        }],
    }
}

fn refusal(details: &[&str]) -> GetCrateErrorResponse {
    GetCrateErrorResponse {
        errors: details.iter().map(|d| ErrorDetail { detail: String::from(*d) }).collect(),
    }
}

fn cause(message: &str) -> TransportError {
    TransportError { message: String::from(message) }
}

#[test]
fn test_exact_matches() {
    for crate_name in &["adhesion", "serde", "serde-derive"] {
        match get_crate(Ok(GetCrateApiResponse::Found(found(crate_name)))) {
            Ok(Some(_)) => (),
            Ok(None) => panic!("no crate {:?} found", crate_name),
            Err(e) => panic!("error querying crate {:?}: {}", crate_name, e.to_string()),
        }
    }
}

#[test]
fn test_missing_crate_returns_none() {
    // What the registry answers for a name that can't happen, such as "@"
    let answer = Ok(GetCrateApiResponse::Error(refusal(&["Not Found"])));
    assert!(get_crate(answer).unwrap().is_none());
}

#[test]
fn found_package_comes_back_whole() {
    let outcome = get_crate(Ok(GetCrateApiResponse::Found(found("serde"))));
    assert_eq!(outcome, Ok(Some(found("serde"))));
}

#[test]
fn two_details_are_an_api_error_with_both() {
    let answer = refusal(&["Not Found", "Not Found"]);
    match get_crate(Ok(GetCrateApiResponse::Error(answer))) {
        Err(GetCrateError::Api(response)) => {
            assert_eq!(response.errors.len(), 2);
            assert_eq!(response.errors[0].detail, "Not Found");
            assert_eq!(response.errors[1].detail, "Not Found");
        }
        other => panic!("{:?}", other),
    }
    let answer = refusal(&["rate limited", "try again later"]);
    assert_eq!(
        get_crate(Ok(GetCrateApiResponse::Error(answer.clone()))),
        Err(GetCrateError::Api(answer))
    );
}

#[test]
fn other_wording_is_an_api_error() {
    let answer = refusal(&["Forbidden"]);
    assert_eq!(
        get_crate(Ok(GetCrateApiResponse::Error(answer.clone()))),
        Err(GetCrateError::Api(answer))
    );
}

#[test]
fn wording_is_compared_exactly() {
    for detail in &["not found", "Not Found ", " Not Found", "Not  Found", "NotFound", ""] {
        let answer = refusal(&[detail]);
        assert_eq!(
            get_crate(Ok(GetCrateApiResponse::Error(answer.clone()))),
            Err(GetCrateError::Api(answer))
        );
    }
}

#[test]
fn no_detail_is_an_api_error() {
    let answer = refusal(&[]);
    assert_eq!(
        get_crate(Ok(GetCrateApiResponse::Error(answer.clone()))),
        Err(GetCrateError::Api(answer))
    );
}

#[test]
fn absence_signal_is_recognised() {
    assert!(refusal(&["Not Found"]).is_not_found());
    assert!(!refusal(&["Forbidden"]).is_not_found());
    assert!(!refusal(&["Not Found", "Not Found"]).is_not_found());
    assert!(!refusal(&["Forbidden", "Not Found"]).is_not_found());
    assert!(!refusal(&[]).is_not_found());
}

#[test]
fn transport_failure_keeps_its_cause() {
    let outcome = get_crate(Err(cause("connection refused")));
    assert_eq!(outcome, Err(GetCrateError::Reqwest(cause("connection refused"))));
}

#[test]
fn same_answer_gives_same_outcome() {
    let first = get_crate(Ok(GetCrateApiResponse::Found(found("adhesion"))));
    let second = get_crate(Ok(GetCrateApiResponse::Found(found("adhesion"))));
    assert_eq!(first, second);
    let first = get_crate(Ok(GetCrateApiResponse::Error(refusal(&["Forbidden"]))));
    let second = get_crate(Ok(GetCrateApiResponse::Error(refusal(&["Forbidden"]))));
    assert_eq!(first, second);
}

#[test]
fn body_that_reads_as_a_package() {
    let shape = resolve_envelope(Ok(found("serde")), Err(cause("missing field `errors`")));
    assert_eq!(shape, Ok(GetCrateApiResponse::Found(found("serde"))));
}

#[test]
fn body_that_reads_as_an_error() {
    let shape = resolve_envelope(Err(cause("missing field `crate`")), Ok(refusal(&["Not Found"])));
    assert_eq!(shape, Ok(GetCrateApiResponse::Error(refusal(&["Not Found"]))));
}

#[test]
fn body_that_reads_as_both() {
    let shape = resolve_envelope(Ok(found("serde")), Ok(refusal(&["Not Found"])));
    assert_eq!(shape, Err(cause("response has the shape of a package and of an error")));
}

#[test]
fn body_that_reads_as_neither() {
    let shape = resolve_envelope(
        Err(cause("missing field `crate`")),
        Err(cause("missing field `errors`")),
    );
    assert_eq!(
        shape,
        Err(cause("response has no known shape: missing field `crate`; missing field `errors`"))
    );
}

#[test]
fn unreadable_body_is_a_transport_failure() {
    let shape = resolve_envelope(Err(cause("expected value")), Err(cause("expected value")));
    match get_crate(shape) {
        Err(GetCrateError::Reqwest(e)) => {
            assert_eq!(e.message, "response has no known shape: expected value; expected value")
        }
        other => panic!("{:?}", other),
    }
}

#[test]
fn address_of_a_package() {
    assert_eq!(crate_url("serde"), "https://crates.io/api/v1/crates/serde");
    assert_eq!(crate_url("serde-derive"), "https://crates.io/api/v1/crates/serde-derive");
    assert_eq!(crate_url("@"), "https://crates.io/api/v1/crates/@");
    assert_eq!(crate_url(""), "https://crates.io/api/v1/crates/");
}
