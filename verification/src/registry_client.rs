use vstd::prelude::*;
use vstd::string::StringExecFns;
use crate::errors::ParseError;
use crate::errors::RegistryError;
use crate::errors::ValidationError;
use crate::http_client::HttpOutcome;
use crate::json::JsonValue;
use crate::json::extract_manifest_digest;
use crate::json::extract_string_array;
use crate::json::json_of;
use crate::json::parse_document;
use crate::json::spec_digest_of_manifest;
use crate::json::spec_string_array;

verus! {

/// Everything one registry command needs beyond the domain: the resolved
/// credentials and the optional protocol, image name, tag and digest.
#[derive(Debug, Clone)]
pub struct CommandContext {
    pub username: String,
    pub password: String,
    pub proto: Option<String>,
    pub image_name: Option<String>,
    pub tag: Option<String>,
    pub digest: Option<String>,
}

/// The URL scheme for registry requests: as given, or "https" by default.
pub open spec fn spec_proto(proto_opt: Option<String>) -> Seq<char> {
    if proto_opt is Some {
        proto_opt->0@
    } else {
        "https"@
    }
}

/// Picks the URL scheme for registry requests; "https" unless one was given.
pub fn get_proto(proto_opt: &Option<String>) -> (r: String)
    ensures
        r@ == spec_proto(*proto_opt),
{
    match proto_opt {
        Some(v) => v.clone(),
        None => "https".to_owned(),
    }
}

/// The common prefix of every registry URL: scheme, domain, and the `/v2`
/// root under which the whole API lives.
pub open spec fn spec_v2_base(proto: Option<String>, domain: Seq<char>) -> Seq<char> {
    spec_proto(proto) + "://"@ + domain + "/v2"@
}

/// The URL of the capability probe.
pub open spec fn spec_root_url(proto: Option<String>, domain: Seq<char>) -> Seq<char> {
    spec_v2_base(proto, domain) + "/"@
}

/// The URL of the repository catalog.
pub open spec fn spec_catalog_url(proto: Option<String>, domain: Seq<char>) -> Seq<char> {
    spec_v2_base(proto, domain) + "/_catalog/"@
}

/// The URL listing an image's tags.
pub open spec fn spec_tags_url(proto: Option<String>, domain: Seq<char>, image: Seq<char>) -> Seq<
    char,
> {
    spec_v2_base(proto, domain) + "/"@ + image + "/tags/list/"@
}

/// The URL of an image manifest under one reference (a tag or a digest).
pub open spec fn spec_manifest_url(
    proto: Option<String>,
    domain: Seq<char>,
    image: Seq<char>,
    reference: Seq<char>,
) -> Seq<char> {
    spec_v2_base(proto, domain) + "/"@ + image + "/manifests/"@ + reference + "/"@
}

/// Builds the scheme-domain-`/v2` prefix shared by every registry URL.
fn v2_base(domain: &String, command_context: &CommandContext) -> (r: String)
    ensures
        r@ == spec_v2_base(command_context.proto, domain@),
{
    get_proto(&command_context.proto).concat("://").concat(domain.as_str()).concat("/v2")
}

/// Builds the URL of the capability probe.
pub fn get_root_uri(domain: &String, command_context: &CommandContext) -> (r: String)
    ensures
        r@ == spec_root_url(command_context.proto, domain@),
{
    v2_base(domain, command_context).concat("/")
}

/// Builds the URL of the repository catalog.
pub fn get_catalog_uri(domain: &String, command_context: &CommandContext) -> (r: String)
    ensures
        r@ == spec_catalog_url(command_context.proto, domain@),
{
    v2_base(domain, command_context).concat("/_catalog/")
}

/// Builds the URL listing an image's tags; the image name must have been
/// supplied for this command.
pub fn get_tags_uri(domain: &String, command_context: &CommandContext) -> (r: Result<
    String,
    RegistryError,
>)
    ensures
        command_context.image_name is None ==> r == Err::<String, RegistryError>(
            RegistryError::Validation(ValidationError::MissingContainerName),
        ),
        command_context.image_name matches Some(image) ==> r matches Ok(u) && u@ == spec_tags_url(
            command_context.proto,
            domain@,
            image@,
        ),
{
    match &command_context.image_name {
        None => Err(RegistryError::Validation(ValidationError::MissingContainerName)),
        Some(image) => Ok(
            v2_base(domain, command_context).concat("/").concat(image.as_str()).concat(
                "/tags/list/",
            ),
        ),
    }
}

/// Builds the URL of the manifest named by the command context: the image
/// name must be present and exactly one of tag and digest set; the digest is
/// the reference when present, else the tag.
pub fn get_manifest_uri(domain: &String, command_context: &CommandContext) -> (r: Result<
    String,
    RegistryError,
>)
    ensures
        command_context.image_name is None ==> r == Err::<String, RegistryError>(
            RegistryError::Validation(ValidationError::MissingImageName),
        ),
        command_context.image_name is Some && (command_context.tag is Some
            <==> command_context.digest is Some) ==> r == Err::<String, RegistryError>(
            RegistryError::Validation(ValidationError::TagDigestConflict),
        ),
        command_context.image_name is Some && command_context.digest is Some
            && command_context.tag is None ==> (r matches Ok(u) && u@ == spec_manifest_url(
            command_context.proto,
            domain@,
            command_context.image_name->0@,
            command_context.digest->0@,
        )),
        command_context.image_name is Some && command_context.tag is Some
            && command_context.digest is None ==> (r matches Ok(u) && u@ == spec_manifest_url(
            command_context.proto,
            domain@,
            command_context.image_name->0@,
            command_context.tag->0@,
        )),
{
    let container_name = match &command_context.image_name {
        Some(v) => v,
        None => {
            return Err(RegistryError::Validation(ValidationError::MissingImageName));
        },
    };
    let reference = match (&command_context.digest, &command_context.tag) {
        (Some(digest), None) => digest,
        (None, Some(tag)) => tag,
        _ => {
            return Err(RegistryError::Validation(ValidationError::TagDigestConflict));
        },
    };
    Ok(
        v2_base(domain, command_context).concat("/").concat(container_name.as_str()).concat(
            "/manifests/",
        ).concat(reference.as_str()).concat("/"),
    )
}

/// Outcome screening shared by every authenticated GET: a transport failure
/// keeps its status code, and 401 or 402 is an authentication failure
/// whatever the body holds.
pub open spec fn spec_screen_get(outcome: HttpOutcome) -> Result<(u16, String), RegistryError> {
    match outcome {
        HttpOutcome::Failed(e) => Err(RegistryError::Transport(e.status_code)),
        HttpOutcome::Response { status, body } => if status == 401 || status == 402 {
            Err(RegistryError::Auth)
        } else {
            Ok((status, body))
        },
    }
}

/// Screens the outcome of an authenticated GET, turning transport failures
/// and rejected credentials into errors.
pub fn screen_get_outcome(outcome: HttpOutcome) -> (r: Result<(u16, String), RegistryError>)
    ensures
        r == spec_screen_get(outcome),
{
    match outcome {
        HttpOutcome::Failed(e) => Err(RegistryError::Transport(e.status_code)),
        HttpOutcome::Response { status, body } => {
            if status == 401 || status == 402 {
                Err(RegistryError::Auth)
            } else {
                Ok((status, body))
            }
        },
    }
}

/// What a 200-only operation's body yields once the status has been
/// screened: the array of strings under `key`, or the error that the body's
/// shape earns.
pub open spec fn spec_string_list_response(status: u16, body: String, key: Seq<char>) -> Result<
    Seq<Seq<char>>,
    RegistryError,
> {
    if status != 200 {
        Err(RegistryError::Transport(status))
    } else {
        match json_of(body@) {
            None => Err(RegistryError::Parse(ParseError::InvalidJson)),
            Some(doc) => match spec_string_array(doc, key) {
                Some(xs) => Ok(xs),
                None => Err(RegistryError::Parse(ParseError::BadShape)),
            },
        }
    }
}

/// Reads a screened response whose 200-body must be an object holding an
/// array of strings under `key`.
fn string_list_response(status: u16, body: String, key: &str) -> (r: Result<
    Vec<String>,
    RegistryError,
>)
    ensures
        (match spec_string_list_response(status, body, key@) {
            Ok(xs) => r matches Ok(v) && v.deep_view() == xs,
            Err(e) => r == Err::<Vec<String>, RegistryError>(e),
        }),
{
    if status != 200 {
        return Err(RegistryError::Transport(status));
    }
    match parse_document(body.as_str()) {
        None => Err(RegistryError::Parse(ParseError::InvalidJson)),
        Some(doc) => match extract_string_array(&doc, key) {
            Some(v) => Ok(v),
            None => Err(RegistryError::Parse(ParseError::BadShape)),
        },
    }
}

/// Reads the capability probe's outcome: the v2 API counts as supported
/// exactly when the probe came back with status 200.
pub fn is_v2_supported(outcome: HttpOutcome) -> (r: Result<(), RegistryError>)
    ensures
        (match spec_screen_get(outcome) {
            Err(e) => r == Err::<(), RegistryError>(e),
            Ok((status, _body)) => if status == 200 {
                r == Ok::<(), RegistryError>(())
            } else {
                r == Err::<(), RegistryError>(RegistryError::ProtocolUnsupported)
            },
        }),
        outcome matches HttpOutcome::Response { status, .. } && (status == 401 || status == 402)
            ==> r == Err::<(), RegistryError>(RegistryError::Auth),
{
    match screen_get_outcome(outcome) {
        Err(e) => Err(e),
        Ok((status, _body)) => {
            if status == 200 {
                Ok(())
            } else {
                Err(RegistryError::ProtocolUnsupported)
            }
        },
    }
}

/// Reads the catalog response: the `repositories` field as the list of
/// repository names.
pub fn list_images(outcome: HttpOutcome) -> (r: Result<Vec<String>, RegistryError>)
    ensures
        (match spec_screen_get(outcome) {
            Err(e) => r == Err::<Vec<String>, RegistryError>(e),
            Ok((status, body)) => (match spec_string_list_response(
                status,
                body,
                "repositories"@,
            ) {
                Ok(xs) => r matches Ok(v) && v.deep_view() == xs,
                Err(e) => r == Err::<Vec<String>, RegistryError>(e),
            }),
        }),
        outcome matches HttpOutcome::Response { status, .. } && (status == 401 || status == 402)
            ==> r == Err::<Vec<String>, RegistryError>(RegistryError::Auth),
{
    match screen_get_outcome(outcome) {
        Err(e) => Err(e),
        Ok((status, body)) => string_list_response(status, body, "repositories"),
    }
}

/// Reads the tag-list response: the `tags` field as the list of tags.
pub fn get_image_tags(outcome: HttpOutcome) -> (r: Result<Vec<String>, RegistryError>)
    ensures
        (match spec_screen_get(outcome) {
            Err(e) => r == Err::<Vec<String>, RegistryError>(e),
            Ok((status, body)) => (match spec_string_list_response(status, body, "tags"@) {
                Ok(xs) => r matches Ok(v) && v.deep_view() == xs,
                Err(e) => r == Err::<Vec<String>, RegistryError>(e),
            }),
        }),
        outcome matches HttpOutcome::Response { status, .. } && (status == 401 || status == 402)
            ==> r == Err::<Vec<String>, RegistryError>(RegistryError::Auth),
{
    match screen_get_outcome(outcome) {
        Err(e) => Err(e),
        Ok((status, body)) => string_list_response(status, body, "tags"),
    }
}

/// What the manifest fetch yields: the parsed manifest document of a 200
/// response, or the error the status or body earns.
pub open spec fn spec_manifest_outcome(outcome: HttpOutcome) -> Result<JsonValue, RegistryError> {
    match spec_screen_get(outcome) {
        Err(e) => Err(e),
        Ok((status, body)) => if status != 200 {
            Err(RegistryError::Transport(status))
        } else {
            match json_of(body@) {
                None => Err(RegistryError::Parse(ParseError::InvalidJson)),
                Some(doc) => Ok(doc),
            }
        },
    }
}

/// Reads the manifest response: the manifest document of a 200 response.
pub fn get_image_manifest(outcome: HttpOutcome) -> (r: Result<JsonValue, RegistryError>)
    ensures
        r == spec_manifest_outcome(outcome),
        outcome matches HttpOutcome::Response { status, .. } && (status == 401 || status == 402)
            ==> r == Err::<JsonValue, RegistryError>(RegistryError::Auth),
{
    match screen_get_outcome(outcome) {
        Err(e) => Err(e),
        Ok((status, body)) => {
            if status != 200 {
                Err(RegistryError::Transport(status))
            } else {
                match parse_document(body.as_str()) {
                    None => Err(RegistryError::Parse(ParseError::InvalidJson)),
                    Some(doc) => Ok(doc),
                }
            }
        },
    }
}

/// What the digest command yields: the manifest's `config.digest` string.
pub open spec fn spec_digest_outcome(outcome: HttpOutcome) -> Result<Seq<char>, RegistryError> {
    match spec_manifest_outcome(outcome) {
        Err(e) => Err(e),
        Ok(doc) => match spec_digest_of_manifest(doc) {
            Some(s) => Ok(s),
            None => Err(RegistryError::Parse(ParseError::BadObjectShape)),
        },
    }
}

/// Reads the manifest response and extracts its `config.digest` string.
pub fn get_image_digest(outcome: HttpOutcome) -> (r: Result<String, RegistryError>)
    ensures
        (match spec_digest_outcome(outcome) {
            Ok(s) => r matches Ok(d) && d@ == s,
            Err(e) => r == Err::<String, RegistryError>(e),
        }),
        outcome matches HttpOutcome::Response { status, .. } && (status == 401 || status == 402)
            ==> r == Err::<String, RegistryError>(RegistryError::Auth),
{
    let doc = match get_image_manifest(outcome) {
        Ok(d) => d,
        Err(e) => {
            return Err(e);
        },
    };
    match extract_manifest_digest(&doc) {
        Some(s) => Ok(s),
        None => Err(RegistryError::Parse(ParseError::BadObjectShape)),
    }
}

/// What the delete command yields: success on the three statuses the
/// registry may answer a deletion with, the status's error otherwise. A
/// DELETE is not screened for 401/402: its bad statuses all map alike.
pub open spec fn spec_delete_outcome(outcome: HttpOutcome) -> Result<(), RegistryError> {
    match outcome {
        HttpOutcome::Failed(e) => Err(RegistryError::Transport(e.status_code)),
        HttpOutcome::Response { status, body: _ } => if status == 200 || status == 202 || status
            == 204 {
            Ok(())
        } else {
            Err(RegistryError::Transport(status))
        },
    }
}

/// Reads the outcome of the manifest DELETE: success on 200, 202 and 204.
pub fn delete_image(outcome: HttpOutcome) -> (r: Result<(), RegistryError>)
    ensures
        r == spec_delete_outcome(outcome),
{
    match outcome {
        HttpOutcome::Failed(e) => Err(RegistryError::Transport(e.status_code)),
        HttpOutcome::Response { status, body: _ } => {
            if status == 200 || status == 202 || status == 204 {
                Ok(())
            } else {
                Err(RegistryError::Transport(status))
            }
        },
    }
}

} // verus!
