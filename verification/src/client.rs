use vstd::prelude::*;

use core::time::Duration;

use crate::client_common::{normalize_base_url, normalized_base_url, DEFAULT_BASE_URL};

verus! {

/// Timeout of HTTP requests, in seconds, when none is configured.
pub const DEFAULT_TIMEOUT_SECS: u64 = 30;

/// What `Duration::as_secs` and `Duration::subsec_nanos` give: the whole
/// seconds and the nanoseconds of the fractional part.
pub uninterp spec fn duration_secs_nanos(value: Duration) -> (u64, u32);

/// `Duration::from_secs`: a duration of `secs` whole seconds, with no
/// fractional part.
#[verifier::external_body]
fn duration_from_secs(secs: u64) -> (r: Duration)
    ensures
        duration_secs_nanos(r) == (secs, 0u32),
{
    Duration::from_secs(secs)
}

/// `Duration` is `Copy`; its `clone` returns the same value.
pub assume_specification[ <Duration as Clone>::clone ](d: &Duration) -> (r: Duration)
    ensures
        r == *d,
;

/// The settings of a client builder, as plain values.
pub struct CbrClientBuilderView {
    pub base_url: Seq<char>,
    pub timeout: Duration,
    pub user_agent: Option<Seq<char>>,
    pub proxy_url: Option<Seq<char>>,
    pub use_system_proxy: bool,
}

/// Builder of a client.
#[derive(Debug, Clone)]
pub struct CbrClientBuilder {
    base_url: String,
    timeout: Duration,
    user_agent: Option<String>,
    proxy_url: Option<String>,
    use_system_proxy: bool,
}

/// The view of an optional string.
pub open spec fn opt_view(s: Option<String>) -> Option<Seq<char>> {
    match s {
        Some(v) => Some(v@),
        None => None,
    }
}

impl View for CbrClientBuilder {
    type V = CbrClientBuilderView;

    closed spec fn view(&self) -> CbrClientBuilderView {
        CbrClientBuilderView {
            base_url: self.base_url@,
            timeout: self.timeout,
            user_agent: opt_view(self.user_agent),
            proxy_url: opt_view(self.proxy_url),
            use_system_proxy: self.use_system_proxy,
        }
    }
}

/// What building a client does with the settings of a builder.
pub struct TransportSettings {
    /// Base URL of every request.
    pub base_url: String,
    /// Timeout of every request.
    pub timeout: Duration,
    /// Whether every proxy, the system's included, is switched off.
    pub bypass_proxies: bool,
    /// Proxy used for every HTTP and HTTPS request.
    pub proxy_url: Option<String>,
    /// Value of the `User-Agent` header.
    pub user_agent: Option<String>,
}

impl Default for CbrClientBuilder {
    fn default() -> (r: Self)
        ensures
            duration_secs_nanos(r@.timeout) == (DEFAULT_TIMEOUT_SECS, 0u32),
            r@.base_url == DEFAULT_BASE_URL@,
            r@.user_agent is None,
            r@.proxy_url is None,
            !r@.use_system_proxy,
    {
        CbrClientBuilder {
            base_url: String::from_str(DEFAULT_BASE_URL),
            timeout: duration_from_secs(DEFAULT_TIMEOUT_SECS),
            user_agent: None,
            proxy_url: None,
            use_system_proxy: false,
        }
    }
}

impl CbrClientBuilder {
    /// Creates a builder with the default settings: the default base URL, a
    /// timeout of thirty seconds, no user agent, no proxy and no system proxy.
    pub fn new() -> (r: Self)
        ensures
            duration_secs_nanos(r@.timeout) == (DEFAULT_TIMEOUT_SECS, 0u32),
            r@.base_url == DEFAULT_BASE_URL@,
            r@.user_agent is None,
            r@.proxy_url is None,
            !r@.use_system_proxy,
    {
        Self::default()
    }

    /// Sets the base URL of the API; a blank value stands for the default.
    pub fn base_url(self, base_url: &str) -> (r: Self)
        ensures
            r@ == (CbrClientBuilderView { base_url: normalized_base_url(base_url@), ..self@ }),
    {
        let mut b = self;
        b.base_url = normalize_base_url(base_url);
        b
    }

    /// Sets the timeout of HTTP requests.
    pub fn timeout(self, timeout: Duration) -> (r: Self)
        ensures
            r@ == (CbrClientBuilderView { timeout, ..self@ }),
    {
        let mut b = self;
        b.timeout = timeout;
        b
    }

    /// Sets the `User-Agent` header.
    pub fn user_agent(self, user_agent: &str) -> (r: Self)
        ensures
            r@ == (CbrClientBuilderView { user_agent: Some(user_agent@), ..self@ }),
    {
        let mut b = self;
        b.user_agent = Some(String::from_str(user_agent));
        b
    }

    /// Sets an explicit proxy URL for all HTTP and HTTPS requests, such as
    /// `http://127.0.0.1:8080` or `socks5h://127.0.0.1:1080`.
    pub fn proxy(self, proxy_url: &str) -> (r: Self)
        ensures
            r@ == (CbrClientBuilderView { proxy_url: Some(proxy_url@), ..self@ }),
    {
        let mut b = self;
        b.proxy_url = Some(String::from_str(proxy_url));
        b
    }

    /// Switches the use of the system proxy settings (`HTTP_PROXY`,
    /// `HTTPS_PROXY`, `ALL_PROXY`, `NO_PROXY`) on or off; off by default.
    pub fn use_system_proxy(self, enabled: bool) -> (r: Self)
        ensures
            r@ == (CbrClientBuilderView { use_system_proxy: enabled, ..self@ }),
    {
        let mut b = self;
        b.use_system_proxy = enabled;
        b
    }

    /// The settings with which a client is built: proxies are switched off
    /// when neither the system proxy nor an explicit proxy is asked for.
    pub fn transport_settings(self) -> (r: TransportSettings)
        ensures
            r.base_url@ == self@.base_url,
            r.timeout == self@.timeout,
            r.bypass_proxies == (!self@.use_system_proxy && self@.proxy_url is None),
            opt_view(r.proxy_url) == self@.proxy_url,
            opt_view(r.user_agent) == self@.user_agent,
    {
        let bypass_proxies = !self.use_system_proxy && self.proxy_url.is_none();
        TransportSettings {
            base_url: self.base_url,
            timeout: self.timeout,
            bypass_proxies,
            proxy_url: self.proxy_url,
            user_agent: self.user_agent,
        }
    }
}

} // verus!
