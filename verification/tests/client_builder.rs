use std::time::Duration;

use cbr_client::{CbrClientBuilder, DEFAULT_BASE_URL};

#[test]
fn default_settings_switch_proxies_off() {
    let settings = CbrClientBuilder::new().transport_settings();
    assert_eq!(settings.base_url, DEFAULT_BASE_URL);
    assert_eq!(settings.timeout, Duration::from_secs(30));
    assert!(settings.bypass_proxies);
    assert_eq!(settings.proxy_url, None);
    assert_eq!(settings.user_agent, None);
}

#[test]
fn builder_keeps_what_it_is_given() {
    let settings = CbrClientBuilder::new()
        .base_url("https://www.cbr.ru/dataservice/")
        .timeout(Duration::from_secs(15))
        .user_agent("my-app/1.0")
        .proxy("http://127.0.0.1:8080")
        .transport_settings();
    assert_eq!(settings.base_url, "https://www.cbr.ru/dataservice");
    assert_eq!(settings.timeout, Duration::from_secs(15));
    assert!(!settings.bypass_proxies);
    assert_eq!(settings.proxy_url.as_deref(), Some("http://127.0.0.1:8080"));
    assert_eq!(settings.user_agent.as_deref(), Some("my-app/1.0"));
}

#[test]
fn system_proxy_keeps_proxies_on() {
    let settings = CbrClientBuilder::new().use_system_proxy(true).transport_settings();
    assert!(!settings.bypass_proxies);
    let settings = CbrClientBuilder::new()
        .use_system_proxy(true)
        .use_system_proxy(false)
        .transport_settings();
    assert!(settings.bypass_proxies);
}

#[test]
fn blank_base_url_falls_back_to_default() {
    let settings = CbrClientBuilder::new().base_url("   ").transport_settings();
    assert_eq!(settings.base_url, DEFAULT_BASE_URL);
}
