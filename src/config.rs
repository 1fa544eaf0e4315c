use vstd::prelude::*;
use vstd::string::*;

verus! {

#[derive(Clone, Debug)]
pub struct ServerConfig {
    pub bind_address: String,
    pub port: u16,
}

#[derive(Clone, Debug)]
pub struct UpstreamConfig {
    pub python_api_base_url: String,
    pub timeout_ms: u64,
}

#[derive(Clone, Debug)]
pub struct LoggingConfig {
    pub level: String,
}

/// Settings read once at startup and shared, unchanged, by every request.
#[derive(Clone, Debug)]
pub struct AppConfig {
    pub server: ServerConfig,
    pub upstream: UpstreamConfig,
    pub logging: LoggingConfig,
}

/// The path of the upstream operation, below its base URL.
pub open spec fn average_prices_path() -> Seq<char> {
    "/internal/average-prices"@
}

impl AppConfig {
    /// The address of the upstream operation: the base URL, then the fixed path.
    pub fn upstream_url(&self) -> (r: String)
        ensures
            r@ == self.upstream.python_api_base_url@ + average_prices_path(),
    {
        let mut url = String::from_str(self.upstream.python_api_base_url.as_str());
        url.append("/internal/average-prices");
        url
    }
}

} // verus!
