use docker_registry::errors::{ParseError, RegistryError};
use docker_registry::http_client::{Error, HttpOutcome};
use docker_registry::json::JsonValue;
use docker_registry::registry_client::{
    delete_image, get_image_digest, get_image_manifest, get_image_tags, is_v2_supported,
    list_images,
};

fn response(status: u16, body: &str) -> HttpOutcome {
    HttpOutcome::Response {
        status,
        body: body.to_string(),
    }
}

fn failed(status_code: u16) -> HttpOutcome {
    HttpOutcome::Failed(Error { status_code })
}

#[test]
fn probe_200_means_v2_supported() {
    assert_eq!(is_v2_supported(response(200, "{}")), Ok(()));
}

#[test]
fn probe_404_means_v2_unsupported() {
    let r = is_v2_supported(response(404, ""));
    assert_eq!(r, Err(RegistryError::ProtocolUnsupported));
    assert_eq!(
        r.unwrap_err().message(),
        "The Docker v2 API is not supported."
    );
}

#[test]
fn probe_401_is_an_auth_error() {
    let r = is_v2_supported(response(401, "anything at all"));
    assert_eq!(r, Err(RegistryError::Auth));
    assert_eq!(r.unwrap_err().message(), "Invalid username and password");
}

#[test]
fn list_images_returns_repository_names() {
    let r = list_images(response(200, "{\"repositories\":[\"a\",\"b\"]}"));
    assert_eq!(r, Ok(vec!["a".to_string(), "b".to_string()]));
}

#[test]
fn list_images_empty_array_is_empty_list() {
    let r = list_images(response(200, "{\"repositories\":[]}"));
    assert_eq!(r, Ok(Vec::new()));
}

#[test]
fn list_images_missing_field_is_a_parse_error() {
    let r = list_images(response(200, "{\"other\":[]}"));
    assert_eq!(r, Err(RegistryError::Parse(ParseError::BadShape)));
    assert_eq!(r.unwrap_err().message(), "Failed to parse response");
}

#[test]
fn list_images_non_array_field_is_a_parse_error() {
    let r = list_images(response(200, "{\"repositories\":\"oops\"}"));
    assert_eq!(r, Err(RegistryError::Parse(ParseError::BadShape)));
}

#[test]
fn list_images_non_string_elements_are_a_parse_error() {
    let r = list_images(response(200, "{\"repositories\":[1,2]}"));
    assert_eq!(r, Err(RegistryError::Parse(ParseError::BadShape)));
}

#[test]
fn list_images_invalid_json_is_fatal_shaped() {
    let r = list_images(response(200, "not json"));
    assert_eq!(r, Err(RegistryError::Parse(ParseError::InvalidJson)));
    assert_eq!(r.unwrap_err().message(), "Failed to deserialize response");
}

#[test]
fn list_images_404_maps_to_reason_phrase() {
    let r = list_images(response(404, "{\"repositories\":[]}"));
    assert_eq!(r, Err(RegistryError::Transport(404)));
    assert_eq!(r.unwrap_err().message(), "Not Found");
}

#[test]
fn list_images_401_ignores_body() {
    let r = list_images(response(401, "{\"repositories\":[\"a\"]}"));
    assert_eq!(r, Err(RegistryError::Auth));
}

#[test]
fn list_images_402_ignores_body() {
    let r = list_images(response(402, "{\"repositories\":[\"a\"]}"));
    assert_eq!(r, Err(RegistryError::Auth));
}

#[test]
fn list_images_transport_failure_keeps_status() {
    let r = list_images(failed(0));
    assert_eq!(r, Err(RegistryError::Transport(0)));
    assert_eq!(r.unwrap_err().message(), "Unknown status code received");
}

#[test]
fn tags_returns_tag_names() {
    let r = get_image_tags(response(200, "{\"tags\":[\"latest\",\"1.0\"]}"));
    assert_eq!(r, Ok(vec!["latest".to_string(), "1.0".to_string()]));
}

#[test]
fn tags_empty_array_is_empty_list() {
    let r = get_image_tags(response(200, "{\"tags\":[]}"));
    assert_eq!(r, Ok(Vec::new()));
}

#[test]
fn tags_missing_field_is_a_parse_error() {
    let r = get_image_tags(response(200, "{\"repositories\":[\"a\"]}"));
    assert_eq!(r, Err(RegistryError::Parse(ParseError::BadShape)));
}

#[test]
fn tags_401_is_an_auth_error() {
    let r = get_image_tags(response(401, "{\"tags\":[\"x\"]}"));
    assert_eq!(r, Err(RegistryError::Auth));
}

#[test]
fn manifest_200_returns_the_document() {
    let r = get_image_manifest(response(200, "{\"schemaVersion\":2}"));
    assert_eq!(
        r,
        Ok(JsonValue::Object(vec![(
            "schemaVersion".to_string(),
            JsonValue::Number("2".to_string())
        )]))
    );
}

#[test]
fn manifest_402_is_an_auth_error() {
    let r = get_image_manifest(response(402, "{}"));
    assert_eq!(r, Err(RegistryError::Auth));
}

#[test]
fn manifest_500_maps_to_reason_phrase() {
    let r = get_image_manifest(response(500, "{}"));
    assert_eq!(r, Err(RegistryError::Transport(500)));
    assert_eq!(r.unwrap_err().message(), "Internal Server Error");
}

#[test]
fn digest_reads_config_digest() {
    let r = get_image_digest(response(200, "{\"config\":{\"digest\":\"sha256:xyz\"}}"));
    assert_eq!(r, Ok("sha256:xyz".to_string()));
}

#[test]
fn digest_missing_config_is_a_parse_error() {
    let r = get_image_digest(response(200, "{\"layers\":[]}"));
    assert_eq!(r, Err(RegistryError::Parse(ParseError::BadObjectShape)));
    assert_eq!(r.unwrap_err().message(), "Failed to parse response object");
}

#[test]
fn digest_non_string_digest_is_a_parse_error() {
    let r = get_image_digest(response(200, "{\"config\":{\"digest\":7}}"));
    assert_eq!(r, Err(RegistryError::Parse(ParseError::BadObjectShape)));
}

#[test]
fn digest_401_is_an_auth_error() {
    let r = get_image_digest(response(401, "{\"config\":{\"digest\":\"sha256:xyz\"}}"));
    assert_eq!(r, Err(RegistryError::Auth));
}

#[test]
fn delete_succeeds_on_200_202_and_204() {
    assert_eq!(delete_image(response(200, "")), Ok(()));
    assert_eq!(delete_image(response(202, "")), Ok(()));
    assert_eq!(delete_image(response(204, "")), Ok(()));
}

#[test]
fn delete_other_statuses_map_to_reason_phrase() {
    let r = delete_image(response(404, ""));
    assert_eq!(r, Err(RegistryError::Transport(404)));
    assert_eq!(r.unwrap_err().message(), "Not Found");
}

#[test]
fn delete_401_maps_to_its_reason_phrase() {
    let r = delete_image(response(401, ""));
    assert_eq!(r, Err(RegistryError::Transport(401)));
    assert_eq!(r.unwrap_err().message(), "Unauthorized");
}

#[test]
fn delete_transport_failure_keeps_status() {
    let r = delete_image(failed(503));
    assert_eq!(r, Err(RegistryError::Transport(503)));
    assert_eq!(r.unwrap_err().message(), "Service Unavailable");
}
