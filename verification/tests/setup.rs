use scb_backup::config::{Config, ConfigError, S3Config, WebDavConfig, CompressionType};
use scb_backup::options::{get_option, OptionError};
use scb_backup::setup::{build_provider_set, ProviderKind};
use scb_backup::webdav::{WebDav, WebDavAuth};

fn s3_block() -> S3Config {
    S3Config {
        endpoint: "http://storage.local".to_string(),
        region: None,
        bucket: "backups".to_string(),
        path: Some("folder/".to_string()),
        access_key: "access".to_string(),
        secret_key: "secret".to_string(),
    }
}

fn webdav_block(user: Option<&str>, password: Option<&str>) -> WebDavConfig {
    WebDavConfig {
        endpoint: "https://dav.local".to_string(),
        user: user.map(|s| s.to_string()),
        password: password.map(|s| s.to_string()),
    }
}

#[test]
fn build_provider_set_orders_destinations() {
    let config = Config {
        compression: CompressionType::Gzip,
        s3: Some(vec![s3_block()]),
        webdav: Some(vec![webdav_block(Some("u"), Some("p"))]),
    };
    let m = build_provider_set(&config).unwrap();
    assert_eq!(m.len(), 2);
    match &m.providers[0] {
        ProviderKind::S3(s) => {
            assert_eq!(s.endpoint, "http://storage.local");
            assert_eq!(s.bucket, "backups");
            assert_eq!(s.path, "folder");
        },
        other => panic!("expected the object-storage destination first, got {:?}", other),
    }
    match &m.providers[1] {
        ProviderKind::WebDav(w) => {
            assert_eq!(w.endpoint, "https://dav.local");
            assert_eq!(w.auth, WebDavAuth::Basic("u".to_string(), "p".to_string()));
        },
        other => panic!("expected the remote-filesystem destination second, got {:?}", other),
    }
}

#[test]
fn build_provider_set_rejects_empty_configuration() {
    let config = Config { compression: CompressionType::Zstd, s3: None, webdav: None };
    assert!(matches!(
        build_provider_set(&config),
        Err(ConfigError::NoProvidersConfigured)
    ));

    let config = Config {
        compression: CompressionType::Zstd,
        s3: Some(Vec::new()),
        webdav: Some(Vec::new()),
    };
    assert!(matches!(
        build_provider_set(&config),
        Err(ConfigError::NoProvidersConfigured)
    ));
}

#[test]
fn build_provider_set_rejects_inconsistent_auth() {
    let config = Config {
        compression: CompressionType::Zstd,
        s3: Some(vec![s3_block()]),
        webdav: Some(vec![webdav_block(Some("u"), None)]),
    };
    assert!(matches!(
        build_provider_set(&config),
        Err(ConfigError::WebDavPasswordMissing)
    ));

    let config = Config {
        compression: CompressionType::Zstd,
        s3: None,
        webdav: Some(vec![webdav_block(None, Some("p"))]),
    };
    assert!(matches!(
        build_provider_set(&config),
        Err(ConfigError::WebDavUserMissing)
    ));
}

#[test]
fn webdav_auth_variants() {
    let anon = WebDav::new("e".to_string(), None, None).unwrap();
    assert_eq!(anon.auth, WebDavAuth::Anonymous);

    let basic = WebDav::new("e".to_string(), Some("u".to_string()), Some("p".to_string()))
        .unwrap();
    assert_eq!(basic.auth, WebDavAuth::Basic("u".to_string(), "p".to_string()));

    assert!(matches!(
        WebDav::new("e".to_string(), Some("u".to_string()), None),
        Err(ConfigError::WebDavPasswordMissing)
    ));
    assert!(matches!(
        WebDav::new("e".to_string(), None, Some("p".to_string())),
        Err(ConfigError::WebDavUserMissing)
    ));
}

#[test]
fn get_option_distinguishes_missing_and_invalid() {
    let ok: Result<Option<u32>, String> = Ok(Some(5));
    assert_eq!(get_option("opt", ok).unwrap(), 5);

    let missing: Result<Option<u32>, String> = Ok(None);
    match get_option("opt", missing) {
        Err(OptionError::NotSet { name }) => assert_eq!(name, "opt"),
        other => panic!("expected the not-set error, got {:?}", other),
    }

    let invalid: Result<Option<u32>, String> = Err("not a number".to_string());
    match get_option("opt", invalid) {
        Err(OptionError::Invalid { name, cause }) => {
            assert_eq!(name, "opt");
            assert_eq!(cause, "not a number");
        },
        other => panic!("expected the invalid error, got {:?}", other),
    }
}
