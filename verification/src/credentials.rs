//! The four secrets that sign every outbound request.

use vstd::prelude::*;

verus! {

/// Environment variable that holds the application's key.
pub const CLIENT_KEY_VARIABLE: &'static str = "APP_CLIENT_KEY";

/// Environment variable that holds the application's secret.
pub const CLIENT_SECRET_VARIABLE: &'static str = "APP_CLIENT_SECRET";

/// Environment variable that holds the account's key.
pub const RESOURCE_OWNER_KEY_VARIABLE: &'static str = "RESOURCE_OWNER_KEY";

/// Environment variable that holds the account's secret.
pub const RESOURCE_OWNER_SECRET_VARIABLE: &'static str = "RESOURCE_OWNER_SECRET";

/// A secret that was not supplied. There is no going on without it.
#[derive(Clone, Copy, Debug, PartialEq, Eq, Structural)]
pub enum ConfigError {
    MissingClientKey,
    MissingClientSecret,
    MissingResourceOwnerKey,
    MissingResourceOwnerSecret,
}

/// The request signer's pair of a key and its secret, with its two public
/// fields as they are.
#[verifier::external_type_specification]
pub struct ExKeyPair(egg_mode::KeyPair);

/// Calls `egg_mode::KeyPair::new`, which makes a pair whose key and secret
/// are the two texts that it is given.
#[verifier::external_body]
fn key_pair(key: String, secret: String) -> (pair: egg_mode::KeyPair)
    ensures
        pair.key@ == key@,
        pair.secret@ == secret@,
{
    egg_mode::KeyPair::new(key, secret)
}

/// Root object of the pipeline: the application's identity and that of the
/// account whose favorites are read. Never changed once built, and never
/// printed.
pub struct TweetsImagesDownloadController {
    pub client_key: String,
    pub client_secret: String,
    pub resource_owner_key: String,
    pub resource_owner_secret: String,
}

/// The first of the four that is missing, in the order in which they are
/// asked for.
pub open spec fn first_missing(
    client_key: Option<String>,
    client_secret: Option<String>,
    resource_owner_key: Option<String>,
    resource_owner_secret: Option<String>,
) -> Option<ConfigError> {
    if client_key.is_none() {
        Some(ConfigError::MissingClientKey)
    } else if client_secret.is_none() {
        Some(ConfigError::MissingClientSecret)
    } else if resource_owner_key.is_none() {
        Some(ConfigError::MissingResourceOwnerKey)
    } else if resource_owner_secret.is_none() {
        Some(ConfigError::MissingResourceOwnerSecret)
    } else {
        None
    }
}

impl ConfigError {
    /// The environment variable that was not set.
    pub fn variable(&self) -> (name: &'static str)
        ensures
            name@ == match *self {
                ConfigError::MissingClientKey => CLIENT_KEY_VARIABLE@,
                ConfigError::MissingClientSecret => CLIENT_SECRET_VARIABLE@,
                ConfigError::MissingResourceOwnerKey => RESOURCE_OWNER_KEY_VARIABLE@,
                ConfigError::MissingResourceOwnerSecret => RESOURCE_OWNER_SECRET_VARIABLE@,
            },
    {
        match self {
            ConfigError::MissingClientKey => CLIENT_KEY_VARIABLE,
            ConfigError::MissingClientSecret => CLIENT_SECRET_VARIABLE,
            ConfigError::MissingResourceOwnerKey => RESOURCE_OWNER_KEY_VARIABLE,
            ConfigError::MissingResourceOwnerSecret => RESOURCE_OWNER_SECRET_VARIABLE,
        }
    }
}

impl TweetsImagesDownloadController {
    /// The controller for these four secrets.
    pub fn new(
        client_key: String,
        client_secret: String,
        resource_owner_key: String,
        resource_owner_secret: String,
    ) -> (ctl: TweetsImagesDownloadController)
        ensures
            ctl.client_key == client_key,
            ctl.client_secret == client_secret,
            ctl.resource_owner_key == resource_owner_key,
            ctl.resource_owner_secret == resource_owner_secret,
    {
        TweetsImagesDownloadController {
            client_key,
            client_secret,
            resource_owner_key,
            resource_owner_secret,
        }
    }

    /// Builds the controller from what the environment holds under the four
    /// variables, each `None` where its variable is not set.
    pub fn from_envvar(
        client_key: Option<String>,
        client_secret: Option<String>,
        resource_owner_key: Option<String>,
        resource_owner_secret: Option<String>,
    ) -> (built: Result<TweetsImagesDownloadController, ConfigError>)
        ensures
            match built {
                Ok(ctl) => {
                    &&& client_key == Some(ctl.client_key)
                    &&& client_secret == Some(ctl.client_secret)
                    &&& resource_owner_key == Some(ctl.resource_owner_key)
                    &&& resource_owner_secret == Some(ctl.resource_owner_secret)
                },
                Err(e) => first_missing(
                    client_key,
                    client_secret,
                    resource_owner_key,
                    resource_owner_secret,
                ) == Some(e),
            },
    {
        let client_key = match client_key {
            Some(value) => value,
            None => { return Err(ConfigError::MissingClientKey); },
        };
        let client_secret = match client_secret {
            Some(value) => value,
            None => { return Err(ConfigError::MissingClientSecret); },
        };
        let resource_owner_key = match resource_owner_key {
            Some(value) => value,
            None => { return Err(ConfigError::MissingResourceOwnerKey); },
        };
        let resource_owner_secret = match resource_owner_secret {
            Some(value) => value,
            None => { return Err(ConfigError::MissingResourceOwnerSecret); },
        };
        Ok(
            TweetsImagesDownloadController::new(
                client_key,
                client_secret,
                resource_owner_key,
                resource_owner_secret,
            ),
        )
    }

    /// The two pairs that a request is signed with: the application's first,
    /// then the account's.
    pub fn get_tokens(&self) -> (tokens: (egg_mode::KeyPair, egg_mode::KeyPair))
        ensures
            tokens.0.key@ == self.client_key@,
            tokens.0.secret@ == self.client_secret@,
            tokens.1.key@ == self.resource_owner_key@,
            tokens.1.secret@ == self.resource_owner_secret@,
    {
        (
            key_pair(self.client_key.clone(), self.client_secret.clone()),
            key_pair(self.resource_owner_key.clone(), self.resource_owner_secret.clone()),
        )
    }
}

} // verus!
