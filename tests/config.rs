use usage_gate::config::{AppConfig, RedisConfig, RedisStore};

#[test]
fn app_config_defaults_and_addr() {
    let c = AppConfig::from_values(None, None);
    assert_eq!(c.addr(), "127.0.0.1:3000");
    let c = AppConfig::from_values(Some("0.0.0.0".to_string()), Some("8080".to_string()));
    assert_eq!(c.addr(), "0.0.0.0:8080");
}

#[test]
fn redis_config_default_url() {
    assert_eq!(RedisConfig::from_value(None).url, "redis://127.0.0.1:6379");
    assert_eq!(RedisConfig::from_value(Some("redis://cache:6379".to_string())).url, "redis://cache:6379");
}

#[test]
fn redis_store_needs_a_redis_url() {
    assert!(RedisStore::new(RedisConfig::from_value(None)).is_ok());
    assert!(RedisStore::new(RedisConfig::from_value(Some("not a url".to_string()))).is_err());
}
