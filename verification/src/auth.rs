use vstd::prelude::*;
use crate::conf::AppConf;
use crate::errors::CredentialError;
use crate::errors::RegistryError;

verus! {

/// The username and password settled on for one invocation.
#[derive(Debug, Clone, PartialEq, Eq)]
pub struct DerivedCredentials {
    pub username: String,
    pub password: String,
}

/// What the credential chain decided: either both fields were found, or a
/// username was found and the password still has to be read from the
/// interactive terminal.
#[derive(Debug, Clone, PartialEq, Eq)]
pub enum CredentialResolution {
    Resolved(DerivedCredentials),
    PasswordPrompt { username: String },
}

/// The first of two optional sources that has a value.
pub open spec fn first_present(primary: Option<String>, fallback: Option<String>) -> Option<
    String,
> {
    if primary is Some {
        primary
    } else {
        fallback
    }
}

/// The credential chain's decision table. Explicit values outrank stored
/// configuration for both fields together: when both are supplied the
/// configuration is not consulted at all. Otherwise each field falls back to
/// the configuration, and the password may further fall back to a terminal
/// prompt when the session is interactive.
pub open spec fn spec_derive_credentials(
    username_provided: Option<String>,
    password_provided: Option<String>,
    app_conf: AppConf,
    interactive: bool,
) -> Result<CredentialResolution, RegistryError> {
    if username_provided is Some && password_provided is Some {
        Ok(
            CredentialResolution::Resolved(
                DerivedCredentials {
                    username: username_provided->0,
                    password: password_provided->0,
                },
            ),
        )
    } else {
        match first_present(username_provided, app_conf.username) {
            None => Err(RegistryError::Credential(CredentialError::MissingUsername)),
            Some(username) => match first_present(password_provided, app_conf.password) {
                Some(password) => Ok(
                    CredentialResolution::Resolved(DerivedCredentials { username, password }),
                ),
                None => if interactive {
                    Ok(CredentialResolution::PasswordPrompt { username })
                } else {
                    Err(RegistryError::Credential(CredentialError::MissingPassword))
                },
            },
        }
    }
}

/// Derives the username and password for one run, prioritizing explicit
/// values over stored configuration, and prompting for the password only as
/// a last resort and only when `interactive` holds of the session.
pub fn derive_credentials_through_chain(
    username_provided: Option<String>,
    password_provided: Option<String>,
    app_conf: AppConf,
    interactive: bool,
) -> (r: Result<CredentialResolution, RegistryError>)
    ensures
        r == spec_derive_credentials(username_provided, password_provided, app_conf, interactive),
{
    if username_provided.is_some() && password_provided.is_some() {
        return Ok(
            CredentialResolution::Resolved(
                DerivedCredentials {
                    username: username_provided.unwrap(),
                    password: password_provided.unwrap(),
                },
            ),
        );
    }
    let AppConf { username: conf_username, password: conf_password } = app_conf;
    let username: String = if username_provided.is_some() {
        username_provided.unwrap()
    } else if conf_username.is_some() {
        conf_username.unwrap()
    } else {
        return Err(RegistryError::Credential(CredentialError::MissingUsername));
    };
    let password: String = if password_provided.is_some() {
        password_provided.unwrap()
    } else if conf_password.is_some() {
        conf_password.unwrap()
    } else if interactive {
        return Ok(CredentialResolution::PasswordPrompt { username });
    } else {
        return Err(RegistryError::Credential(CredentialError::MissingPassword));
    };
    Ok(CredentialResolution::Resolved(DerivedCredentials { username, password }))
}

/// Explicit credentials are authoritative: when both are supplied, the stored
/// configuration and the terminal's interactivity play no part, and the pair
/// is returned exactly as given.
pub proof fn lemma_explicit_credentials_short_circuit(
    username: String,
    password: String,
    conf_a: AppConf,
    conf_b: AppConf,
    interactive_a: bool,
    interactive_b: bool,
)
    ensures
        spec_derive_credentials(Some(username), Some(password), conf_a, interactive_a)
            == spec_derive_credentials(Some(username), Some(password), conf_b, interactive_b),
        spec_derive_credentials(Some(username), Some(password), conf_a, interactive_a) == Ok::<
            CredentialResolution,
            RegistryError,
        >(CredentialResolution::Resolved((DerivedCredentials { username, password }))),
{
}

} // verus!
