//! The settings of the HTTP client, and the transport that carries them.

use super::retry::RetryState;
use vstd::prelude::*;

verus! {

/// Settings for the HTTP client: timeouts and the retry strategy.
///
/// Durations are whole milliseconds. The backoff factor is given in
/// thousandths, so `1500` multiplies a pause by one and a half.
#[derive(Clone, Copy, Debug, PartialEq, Eq, Structural)]
pub struct ClientSettings {
    /// The timeout for connect, read and write operations.
    pub timeout: u64,
    /// The timeout for the connect phase alone.
    pub connect_timeout: u64,
    /// The total number of times a response is tried for.
    pub tries: u32,
    /// The pause between the first and the second try.
    pub initial_backoff: u64,
    /// The longest pause between two later tries.
    pub max_backoff: u64,
    /// The factor, in thousandths, by which the pause grows after each try
    /// until it reaches `max_backoff`.
    pub backoff_factor: u32,
}

impl ClientSettings {
    /// The settings that a transport has unless it is given others: four
    /// tries, pausing 100 ms, then 150 ms, then 225 ms.
    pub open spec fn spec_default() -> ClientSettings {
        ClientSettings {
            timeout: 30_000,
            connect_timeout: 10_000,
            tries: 4,
            initial_backoff: 100,
            max_backoff: 1_000,
            backoff_factor: 1_500,
        }
    }
}

impl Default for ClientSettings {
    fn default() -> (settings: ClientSettings)
        ensures
            settings == ClientSettings::spec_default(),
    {
        ClientSettings {
            timeout: 30_000,
            connect_timeout: 10_000,
            tries: 4,
            initial_backoff: 100,
            max_backoff: 1_000,
            backoff_factor: 1_500,
        }
    }
}

/// An HTTP transport with retry logic.
#[derive(Clone, Copy, Debug)]
pub struct HttpTransport {
    settings: ClientSettings,
}

impl HttpTransport {
    /// The settings that this transport fetches with.
    pub closed spec fn spec_settings(self) -> ClientSettings {
        self.settings
    }

    /// Creates a transport with the default settings.
    pub fn new() -> (transport: HttpTransport)
        ensures
            transport.spec_settings() == ClientSettings::spec_default(),
    {
        HttpTransport { settings: ClientSettings::default() }
    }

    /// Creates a transport with the given settings.
    pub fn from_settings(settings: ClientSettings) -> (transport: HttpTransport)
        ensures
            transport.spec_settings() == settings,
    {
        HttpTransport { settings }
    }

    /// The settings that this transport fetches with.
    pub fn settings(&self) -> (settings: ClientSettings)
        ensures
            settings == self.spec_settings(),
    {
        self.settings
    }

    /// The retry state that a fetch starts in: on its first try, with the
    /// initial backoff as its pause and nothing read yet.
    pub fn start(&self) -> (state: RetryState)
        ensures
            state == RetryState::spec_new(self.spec_settings().initial_backoff),
    {
        RetryState::new(self.settings.initial_backoff)
    }
}

impl Default for HttpTransport {
    fn default() -> (transport: HttpTransport)
        ensures
            transport.spec_settings() == ClientSettings::spec_default(),
    {
        HttpTransport::new()
    }
}

} // verus!
