use vstd::prelude::*;

verus! {

/// The command line of the client: `[HOST] [SERVICE]` with optional
/// credentials. Each of `host` and `service` is written `name` or
/// `name:port`.
pub struct Args {
    pub host: Option<String>,
    pub service: Option<String>,
    pub username: Option<String>,
    pub password: Option<String>,
    pub token: Option<String>,
    /// Whether to skip the check of the server's TLS certificate.
    pub insecure_tls: bool,
}

/// What the command line holds, as values.
pub struct ArgsView {
    pub host: Option<Seq<char>>,
    pub service: Option<Seq<char>>,
    pub username: Option<Seq<char>>,
    pub password: Option<Seq<char>>,
    pub token: Option<Seq<char>>,
    pub insecure_tls: bool,
}

impl View for Args {
    type V = ArgsView;

    open spec fn view(&self) -> ArgsView {
        ArgsView {
            host: self.host.deep_view(),
            service: self.service.deep_view(),
            username: self.username.deep_view(),
            password: self.password.deep_view(),
            token: self.token.deep_view(),
            insecure_tls: self.insecure_tls,
        }
    }
}

} // verus!
