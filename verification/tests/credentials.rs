use favsync::credentials::{ConfigError, TweetsImagesDownloadController};

fn some(s: &str) -> Option<String> {
    Some(s.to_string())
}

#[test]
fn new_keeps_the_four_values() {
    let ctl = TweetsImagesDownloadController::new(
        "ck".to_string(),
        "cs".to_string(),
        "rk".to_string(),
        "rs".to_string(),
    );
    assert_eq!(ctl.client_key, "ck");
    assert_eq!(ctl.client_secret, "cs");
    assert_eq!(ctl.resource_owner_key, "rk");
    assert_eq!(ctl.resource_owner_secret, "rs");
}

#[test]
fn tokens_pair_application_then_account() {
    let ctl = TweetsImagesDownloadController::new(
        "ck".to_string(),
        "cs".to_string(),
        "rk".to_string(),
        "rs".to_string(),
    );
    let (app, account) = ctl.get_tokens();
    assert_eq!(app.key, "ck");
    assert_eq!(app.secret, "cs");
    assert_eq!(account.key, "rk");
    assert_eq!(account.secret, "rs");
}

#[test]
fn environment_with_all_four_builds() {
    let built =
        TweetsImagesDownloadController::from_envvar(some("a"), some("b"), some("c"), some("d"));
    match built {
        Ok(ctl) => {
            assert_eq!(ctl.client_key, "a");
            assert_eq!(ctl.client_secret, "b");
            assert_eq!(ctl.resource_owner_key, "c");
            assert_eq!(ctl.resource_owner_secret, "d");
        }
        Err(e) => panic!("unexpected {:?}", e),
    }
}

#[test]
fn each_missing_variable_is_named() {
    assert_eq!(
        TweetsImagesDownloadController::from_envvar(None, some("b"), some("c"), some("d")).err(),
        Some(ConfigError::MissingClientKey)
    );
    assert_eq!(
        TweetsImagesDownloadController::from_envvar(some("a"), None, some("c"), some("d")).err(),
        Some(ConfigError::MissingClientSecret)
    );
    assert_eq!(
        TweetsImagesDownloadController::from_envvar(some("a"), some("b"), None, some("d")).err(),
        Some(ConfigError::MissingResourceOwnerKey)
    );
    assert_eq!(
        TweetsImagesDownloadController::from_envvar(some("a"), some("b"), some("c"), None).err(),
        Some(ConfigError::MissingResourceOwnerSecret)
    );
}

#[test]
fn first_missing_variable_wins() {
    assert_eq!(
        TweetsImagesDownloadController::from_envvar(None, None, None, None).err(),
        Some(ConfigError::MissingClientKey)
    );
    assert_eq!(
        TweetsImagesDownloadController::from_envvar(some("a"), some("b"), None, None).err(),
        Some(ConfigError::MissingResourceOwnerKey)
    );
}

#[test]
fn errors_name_their_variables() {
    assert_eq!(ConfigError::MissingClientKey.variable(), "APP_CLIENT_KEY");
    assert_eq!(ConfigError::MissingClientSecret.variable(), "APP_CLIENT_SECRET");
    assert_eq!(ConfigError::MissingResourceOwnerKey.variable(), "RESOURCE_OWNER_KEY");
    assert_eq!(ConfigError::MissingResourceOwnerSecret.variable(), "RESOURCE_OWNER_SECRET");
}
