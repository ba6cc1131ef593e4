use vstd::prelude::*;

verus! {

/// Why the configuration could not be read.
#[derive(Debug)]
pub enum ConfigError {
    /// A value is missing a part: the name of the value and of the
    /// environment variable that also sets it.
    InvalidValue((String, String)),
    /// A host or service is neither a DNS name nor an IP address.
    InvalidDNSName,
    /// A port is not a number from 0 to 65535: the text given for it.
    InvalidPort(String),
    /// No credentials were given, and none were entered.
    AuthenticationRequired,
}

pub enum ConfigErrorView {
    InvalidValue(Seq<char>, Seq<char>),
    InvalidDNSName,
    InvalidPort(Seq<char>),
    AuthenticationRequired,
}

impl View for ConfigError {
    type V = ConfigErrorView;

    open spec fn view(&self) -> ConfigErrorView {
        match self {
            ConfigError::InvalidValue(pair) => ConfigErrorView::InvalidValue(pair.0@, pair.1@),
            ConfigError::InvalidDNSName => ConfigErrorView::InvalidDNSName,
            ConfigError::InvalidPort(text) => ConfigErrorView::InvalidPort(text@),
            ConfigError::AuthenticationRequired => ConfigErrorView::AuthenticationRequired,
        }
    }
}

} // verus!
