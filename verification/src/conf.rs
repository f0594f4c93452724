use vstd::prelude::*;
use vstd::string::StringExecFns;
use crate::errors::ConfigError;
use crate::errors::RegistryError;

verus! {

/// Credentials found in the on-disk configuration file, as handed in by the
/// caller that loaded it; either field may be absent.
#[derive(Debug, Clone, PartialEq, Eq)]
pub struct AppConf {
    pub username: Option<String>,
    pub password: Option<String>,
}

/// Where the configuration file is looked for: an explicit override path
/// wins; otherwise it lives at a fixed spot under the home directory; with
/// neither available the location cannot be determined.
pub open spec fn spec_conf_path(home: Option<String>, override_path: Option<String>) -> Result<
    Seq<char>,
    RegistryError,
> {
    if override_path is Some {
        Ok(override_path->0@)
    } else if home is Some {
        Ok(home->0@ + "/.docker-registry/config"@)
    } else {
        Err(RegistryError::Config(ConfigError::NoHomeDirectory))
    }
}

/// Resolves the configuration file path from the home directory (if the
/// platform could detect one) and an optional override.
pub fn conf_path(home: Option<String>, override_path: Option<String>) -> (r: Result<
    String,
    RegistryError,
>)
    ensures
        (match spec_conf_path(home, override_path) {
            Ok(p) => r matches Ok(s) && s@ == p,
            Err(e) => r == Err::<String, RegistryError>(e),
        }),
{
    match override_path {
        Some(p) => Ok(p),
        None => match home {
            Some(h) => Ok(h.concat("/.docker-registry/config")),
            None => Err(RegistryError::Config(ConfigError::NoHomeDirectory)),
        },
    }
}

} // verus!
