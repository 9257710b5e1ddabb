use jwt_auth::jwks_source::JwksProviderSource;
use jwt_auth::config::{
    Level,
    default_endpoint_graphiql, default_logger_level, default_server_host, default_server_port,
};

#[test]
fn configuration_defaults() {
    assert!(default_endpoint_graphiql());
    assert_eq!(default_server_port(), 9000);
    assert_eq!(default_server_host(), "127.0.0.1");
    assert_eq!(default_logger_level(), Level::Info);
    assert_eq!(default_logger_level().into_level(), tracing::Level::INFO);
    assert_eq!(Level::Trace.into_level(), tracing::Level::TRACE);
    assert_eq!(Level::Debug.into_level(), tracing::Level::DEBUG);
    assert_eq!(Level::Warn.into_level(), tracing::Level::WARN);
    assert_eq!(Level::Error.into_level(), tracing::Level::ERROR);
}


#[test]
fn provider_prefetch_and_cache_rules() {
    let remote = |cache: Option<u64>, prefetch: Option<bool>, timeout: Option<u64>| JwksProviderSource::Remote {
        url: "https://keys.example/jwks.json".to_string(),
        cache_duration_secs: cache,
        prefetch,
        timeout_secs: timeout,
    };
    let local = JwksProviderSource::Local { file: "jwks.json".to_string() };
    assert!(local.can_prefetch());
    assert!(remote(None, Some(true), None).can_prefetch());
    assert!(!remote(None, Some(false), None).can_prefetch());
    assert!(!remote(None, None, None).can_prefetch());
    assert!(local.reuse_cached(u64::MAX));
    assert!(remote(Some(30), None, None).reuse_cached(29));
    assert!(!remote(Some(30), None, None).reuse_cached(30));
    assert!(remote(None, None, None).reuse_cached(599));
    assert!(!remote(None, None, None).reuse_cached(600));
    assert_eq!(remote(None, None, Some(3)).timeout_secs(), 3);
    assert_eq!(remote(None, None, None).timeout_secs(), 10);
    assert_eq!(local.timeout_secs(), 10);
}
