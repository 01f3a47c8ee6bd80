use pop_parachains::errors::{ApiError, UrlError};
use pop_parachains::github::GitHub;
use pop_parachains::json::Json;
use pop_parachains::remote::RepoUrl;

const BASE_PARACHAIN: &str = "https://github.com/r0gue-io/base-parachain";
const POLKADOT_SDK: &str = "https://github.com/paritytech/polkadot-sdk";

#[test]
fn test_get_latest_releases() {
    let expected_payload = r#"[{
			"tag_name": "polkadot-v1.10.0",
			"name": "Polkadot v1.10.0",
			"prerelease": false
		  }]"#;
    let latest_release = GitHub::get_latest_releases(200, expected_payload.as_bytes()).unwrap();
    assert_eq!(latest_release.len(), 1);
    assert_eq!(latest_release[0].name, "Polkadot v1.10.0");
    assert_eq!(latest_release[0].tag_name, "polkadot-v1.10.0");
    assert_eq!(latest_release[0].prerelease, false);
    assert_eq!(latest_release[0].commit, None);
}

#[test]
fn get_releases_with_commit_sha() {
    let expected_payload = r#"{
			"ref": "refs/tags/polkadot-v1.11.0",
			"node_id": "REF_kwDOKDT1SrpyZWZzL3RhZ3MvcG9sa2Fkb3QtdjEuMTEuMA",
			"url": "https://api.github.com/repos/paritytech/polkadot-sdk/git/refs/tags/polkadot-v1.11.0",
			"object": {
				"sha": "0bb6249268c0b77d2834640b84cb52fdd3d7e860",
				"type": "commit",
				"url": "https://api.github.com/repos/paritytech/polkadot-sdk/git/commits/0bb6249268c0b77d2834640b84cb52fdd3d7e860"
			}
		  }"#;
    let hash = GitHub::get_commit_sha_from_release(200, expected_payload.as_bytes()).unwrap();
    assert_eq!(hash, "0bb6249268c0b77d2834640b84cb52fdd3d7e860");
}

#[test]
fn test_get_releases_api_url() {
    let url = RepoUrl::parse(POLKADOT_SDK).unwrap();
    let api_url = GitHub::url_api_releases(&url).unwrap();
    assert_eq!(api_url, "https://api.github.com/repos/paritytech/polkadot-sdk/releases");
}

#[test]
fn test_url_api_tag_information() {
    let url = RepoUrl::parse(POLKADOT_SDK).unwrap();
    let tag = "polkadot-v1.11.0";
    let api_url = GitHub::url_api_tag_information(&url, tag).unwrap();
    assert_eq!(
        api_url,
        "https://api.github.com/repos/paritytech/polkadot-sdk/git/ref/tags/polkadot-v1.11.0"
    );
}

#[test]
fn test_parse_org() {
    let url = RepoUrl::parse(BASE_PARACHAIN).unwrap();
    let org = GitHub::org(&url).unwrap();
    assert_eq!(org, "r0gue-io");
}

#[test]
fn test_parse_name() {
    let url = RepoUrl::parse(BASE_PARACHAIN).unwrap();
    let name = GitHub::name(&url).unwrap();
    assert_eq!(name, "base-parachain");
}

#[test]
fn test_release_url() {
    let repo = RepoUrl::parse(POLKADOT_SDK).unwrap();
    let url = GitHub::release(&repo, &format!("polkadot-v1.9.0"), "polkadot");
    assert_eq!(url, format!("{}/releases/download/polkadot-v1.9.0/polkadot", POLKADOT_SDK));
}

#[test]
fn test_convert_to_ssh_url() {
    assert_eq!(
        GitHub::convert_to_ssh_url(&RepoUrl::parse(BASE_PARACHAIN).expect("valid repository url")),
        "git@github.com:r0gue-io/base-parachain.git"
    );
    assert_eq!(
        GitHub::convert_to_ssh_url(
            &RepoUrl::parse("https://github.com/paritytech/substrate-contracts-node")
                .expect("valid repository url")
        ),
        "git@github.com:paritytech/substrate-contracts-node.git"
    );
    assert_eq!(
        GitHub::convert_to_ssh_url(
            &RepoUrl::parse("https://github.com/paritytech/frontier-parachain-template")
                .expect("valid repository url")
        ),
        "git@github.com:paritytech/frontier-parachain-template.git"
    );
}

#[test]
fn parsed_url_is_taken_apart() {
    let url = RepoUrl::parse("https://github.com/paritytech/polkadot-sdk?tab=readme#top").unwrap();
    assert_eq!(url.as_str(), "https://github.com/paritytech/polkadot-sdk?tab=readme#top");
    assert_eq!(url.host_str(), Some("github.com"));
    assert_eq!(url.path(), "/paritytech/polkadot-sdk");
    assert_eq!(
        url.path_segments(),
        Some(vec!["paritytech".to_string(), "polkadot-sdk".to_string()])
    );
}

#[test]
fn text_that_is_no_url_is_malformed() {
    assert_eq!(RepoUrl::parse("not a url").err(), Some(UrlError::Malformed));
    assert_eq!(RepoUrl::parse("").err(), Some(UrlError::Malformed));
    assert_eq!(RepoUrl::parse("github.com/org/name").err(), Some(UrlError::Malformed));
}

#[test]
fn url_without_name_is_rejected() {
    let bare = RepoUrl::parse("https://github.com").unwrap();
    assert_eq!(bare.path(), "/");
    assert_eq!(GitHub::org(&bare), Ok(String::new()));
    assert_eq!(GitHub::name(&bare), Err(UrlError::MissingName));
    assert_eq!(GitHub::url_api_releases(&bare), Err(UrlError::MissingName));
    assert_eq!(GitHub::url_api_tag_information(&bare, "v1.0.0"), Err(UrlError::MissingName));

    let org_only = RepoUrl::parse("https://github.com/paritytech").unwrap();
    assert_eq!(GitHub::org(&org_only), Ok("paritytech".to_string()));
    assert_eq!(GitHub::url_api_releases(&org_only), Err(UrlError::MissingName));
}

#[test]
fn url_without_segments_is_rejected() {
    let mail = RepoUrl::parse("mailto:someone@example.com").unwrap();
    assert_eq!(mail.path_segments(), None);
    assert_eq!(GitHub::org(&mail), Err(UrlError::MissingOrganization));
    assert_eq!(GitHub::name(&mail), Err(UrlError::MissingName));
    assert_eq!(GitHub::url_api_releases(&mail), Err(UrlError::MissingOrganization));
}

#[test]
fn empty_segments_count_as_segments() {
    let url = RepoUrl::parse("https://github.com/org//deep/").unwrap();
    assert_eq!(
        url.path_segments(),
        Some(vec!["org".to_string(), String::new(), "deep".to_string(), String::new()])
    );
    assert_eq!(GitHub::name(&url), Ok(String::new()));
}

#[test]
fn deeper_paths_keep_their_first_two_segments() {
    let url = RepoUrl::parse("https://github.com/paritytech/polkadot-sdk/tree/master").unwrap();
    assert_eq!(
        GitHub::url_api_releases(&url).unwrap(),
        "https://api.github.com/repos/paritytech/polkadot-sdk/releases"
    );
    assert_eq!(
        GitHub::convert_to_ssh_url(&url),
        "git@github.com:paritytech/polkadot-sdk/tree/master.git"
    );
}

#[test]
fn ssh_url_keeps_the_host_of_the_source() {
    let url = RepoUrl::parse("https://gitlab.example.org/group/project").unwrap();
    assert_eq!(GitHub::convert_to_ssh_url(&url), "git@gitlab.example.org:group/project.git");
}

#[test]
fn ssh_url_of_a_hostless_url_names_github() {
    let url = RepoUrl::parse("file:///srv/git/project").unwrap();
    assert_eq!(url.host_str(), None);
    assert_eq!(GitHub::convert_to_ssh_url(&url), "git@github.com:srv/git/project.git");

    let mail = RepoUrl::parse("mailto:someone").unwrap();
    assert_eq!(GitHub::convert_to_ssh_url(&mail), "git@github.com:someone.git");

    let hand_made = RepoUrl { href: String::new(), host: None, path: String::new() };
    assert_eq!(GitHub::convert_to_ssh_url(&hand_made), "git@github.com:.git");
}

#[test]
fn release_listing_keeps_order_and_commits() {
    let payload = r#"[
        {"tag_name": "v2.0.0-rc1", "name": "Two, candidate", "prerelease": true, "commit": "abc123", "draft": false},
        {"tag_name": "v1.0.0", "name": "One", "prerelease": false, "commit": null}
    ]"#;
    let releases = GitHub::get_latest_releases(200, payload.as_bytes()).unwrap();
    assert_eq!(releases.len(), 2);
    assert_eq!(releases[0].tag_name, "v2.0.0-rc1");
    assert_eq!(releases[0].name, "Two, candidate");
    assert_eq!(releases[0].prerelease, true);
    assert_eq!(releases[0].commit, Some("abc123".to_string()));
    assert_eq!(releases[1].tag_name, "v1.0.0");
    assert_eq!(releases[1].commit, None);
}

#[test]
fn empty_release_listing_is_no_error() {
    assert_eq!(GitHub::get_latest_releases(200, b"[]"), Ok(vec![]));
}

#[test]
fn failed_request_is_reported_before_the_body_is_read() {
    let payload = br#"[{"tag_name": "v1.0.0", "name": "One", "prerelease": false}]"#;
    assert_eq!(GitHub::get_latest_releases(404, payload), Err(ApiError::RequestFailed));
    assert_eq!(GitHub::get_latest_releases(199, payload), Err(ApiError::RequestFailed));
    assert_eq!(GitHub::get_latest_releases(300, payload), Err(ApiError::RequestFailed));
    assert!(GitHub::get_latest_releases(299, payload).is_ok());
    assert_eq!(
        GitHub::get_commit_sha_from_release(500, br#"{"object": {"sha": "abc"}}"#),
        Err(ApiError::RequestFailed)
    );
}

#[test]
fn malformed_release_listing_is_a_decode_failure() {
    let cases: [&[u8]; 7] = [
        b"",
        b"not json",
        br#"{"tag_name": "v1.0.0", "name": "One", "prerelease": false}"#,
        br#"[{"name": "One", "prerelease": false}]"#,
        br#"[{"tag_name": "v1.0.0", "name": "One", "prerelease": "no"}]"#,
        br#"[{"tag_name": "v1.0.0", "name": "One", "prerelease": false, "commit": 7}]"#,
        br#"[{"tag_name": "v1.0.0", "name": "One", "prerelease": false}, 3]"#,
    ];
    for body in cases {
        assert_eq!(GitHub::get_latest_releases(200, body), Err(ApiError::DecodeFailed));
    }
}

#[test]
fn tag_reference_without_sha_is_a_missing_field() {
    let cases: [&[u8]; 6] = [
        b"{}",
        b"[]",
        br#"{"object": {}}"#,
        br#"{"object": {"sha": 12}}"#,
        br#"{"object": "0bb6249268c0b77d2834640b84cb52fdd3d7e860"}"#,
        br#"{"sha": "0bb6249268c0b77d2834640b84cb52fdd3d7e860"}"#,
    ];
    for body in cases {
        assert_eq!(GitHub::get_commit_sha_from_release(200, body), Err(ApiError::MissingField));
    }
    assert_eq!(
        ApiError::MissingField.message(),
        "the github release tag sha was not found"
    );
}

#[test]
fn tag_reference_that_is_no_json_is_a_decode_failure() {
    assert_eq!(
        GitHub::get_commit_sha_from_release(200, b"<html></html>"),
        Err(ApiError::DecodeFailed)
    );
}

#[test]
fn decoded_documents_can_be_read_directly() {
    let document = Json::parse(br#"{"object": {"sha": "abc"}, "n": 1.5, "list": [true, null]}"#)
        .unwrap();
    assert_eq!(GitHub::commit_sha_in(&document), Ok("abc".to_string()));
    assert_eq!(GitHub::releases_in(&document), Err(ApiError::DecodeFailed));
    assert_eq!(document.get("n"), Some(&Json::Number("1.5".to_string())));
    assert_eq!(
        document.get("list"),
        Some(&Json::Array(vec![Json::Bool(true), Json::Null]))
    );
    assert_eq!(document.get("absent"), None);
    assert_eq!(document.get("list").unwrap().get("object"), None);
    assert_eq!(Json::parse(b"{"), Err(ApiError::DecodeFailed));
}

#[test]
fn url_errors_say_what_is_missing() {
    assert_eq!(
        UrlError::MissingOrganization.message(),
        "the organization (or user) is missing from the github url"
    );
    assert_eq!(
        UrlError::MissingName.message(),
        "the repository name is missing from the github url"
    );
}
