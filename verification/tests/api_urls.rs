//! The account-flow endpoints and the lookup-URL normalization.

use pocket_ark_client::api::{
    build_lookup_url, create_endpoint, details_endpoint, login_endpoint, AuthRequest,
    AuthResponse, HttpError,
};
use pocket_ark_client::patch::PatchError;

fn url(host: &str) -> String {
    String::from_utf8(build_lookup_url(host.as_bytes())).unwrap()
}

#[test]
fn endpoints_are_stable() {
    assert_eq!(login_endpoint(), "/ark/client/login");
    assert_eq!(create_endpoint(), "/ark/client/create");
    assert_eq!(details_endpoint(), "/ark/client/details");
}

#[test]
fn bare_host_gets_http_scheme() {
    assert_eq!(url("play.example.net"), "http://play.example.net/ark/client/details");
}

#[test]
fn explicit_scheme_is_kept() {
    assert_eq!(url("http://play.example.net"), "http://play.example.net/ark/client/details");
    assert_eq!(
        url("https://play.example.net:8080"),
        "https://play.example.net:8080/ark/client/details"
    );
}

#[test]
fn one_trailing_slash_is_dropped() {
    assert_eq!(url("https://play.example.net/"), "https://play.example.net/ark/client/details");
    // Only one, as the lookup flow always did.
    assert_eq!(
        url("https://play.example.net//"),
        "https://play.example.net//ark/client/details"
    );
}

#[test]
fn auth_value_types_round_trip() {
    let req = AuthRequest {
        username: "user".to_string(),
        password: "pass".to_string(),
    };
    assert_eq!(req.username, "user");
    assert_eq!(req.password, "pass");
    let resp = AuthResponse {
        token: "tok".to_string(),
    };
    assert_eq!(resp.token, "tok");
    let err = HttpError {
        reason: "bad credentials".to_string(),
    };
    assert_eq!(err.reason, "bad credentials");
}

#[test]
fn patch_error_messages() {
    assert_eq!(
        PatchError::PickFileFailed.message(),
        "Failed to get picked file. Make sure this program is running as administrator"
    );
    assert_eq!(
        PatchError::MissingGame.message(),
        "The path given doesn't contains the MassEffect.exe executable"
    );
    assert_eq!(PatchError::FailedDelete.message(), "Failed to delete the patched library");
    assert_eq!(
        PatchError::FailedReplaceOriginal.message(),
        "Failed to restore the original library"
    );
    assert_eq!(
        PatchError::FailedWritingPatchFiles.message(),
        "Failed to write patch files"
    );
}
