//! What the servers of the monitor listen on and hand out.
//!
//! The main server hands out the status files, the index page and the metrics
//! of the API. With HTTPS on it speaks TLS, and a second server on the plain
//! HTTP port sends every request on to the secure origin. This module decides
//! which listeners there are; opening them is left to the caller.

use crate::config::Config;
use vstd::prelude::*;
use vstd::string::*;

verus! {

/// The plain HTTP port, on which the redirect listens.
pub const HTTP_PORT: u16 = 80;

/// The origin to which plain HTTP is redirected.
pub const SECURE_ORIGIN: &'static str = "https://status.wavy.fm";

/// The file of the certificate chain.
pub const CERT_PATH: &'static str = "/etc/letsencrypt/live/status.wavy.fm/fullchain.pem";

/// The file of the certificate's private key.
pub const KEY_PATH: &'static str = "/etc/letsencrypt/live/status.wavy.fm/privkey.pem";

/// The file of the index page, relative to the working directory.
pub const INDEX_FILE: &'static str = "index.html";

/// Where the metrics of the API are fetched.
pub const METRICS_UPSTREAM: &'static str = "https://api.wavy.fm/metrics/listens/48h";

/// How the main server listens.
#[derive(Clone, Debug)]
pub enum Listener {
    /// Plain HTTP on a port.
    Plain { port: u16 },
    /// TLS on a port, with the files of the certificate chain and of its key.
    Tls { port: u16, cert_path: String, key_path: String },
}

/// A listener as plain values.
pub enum ListenerView {
    Plain { port: u16 },
    Tls { port: u16, cert_path: Seq<char>, key_path: Seq<char> },
}

impl View for Listener {
    type V = ListenerView;

    open spec fn view(&self) -> ListenerView {
        match *self {
            Listener::Plain { port } => ListenerView::Plain { port },
            Listener::Tls { port, cert_path, key_path } => ListenerView::Tls {
                port,
                cert_path: cert_path@,
                key_path: key_path@,
            },
        }
    }
}

/// A server that answers every request with a redirect.
#[derive(Clone, Debug)]
pub struct Redirect {
    pub port: u16,
    pub location: String,
}

/// A redirect as plain values.
pub struct RedirectView {
    pub port: u16,
    pub location: Seq<char>,
}

impl View for Redirect {
    type V = RedirectView;

    open spec fn view(&self) -> RedirectView {
        RedirectView { port: self.port, location: self.location@ }
    }
}

/// The listener of the main server under a configuration.
pub open spec fn listener_of(config: Config) -> ListenerView {
    if config.https {
        ListenerView::Tls {
            port: config.port,
            cert_path: CERT_PATH@,
            key_path: KEY_PATH@,
        }
    } else {
        ListenerView::Plain { port: config.port }
    }
}

/// The redirect under a configuration: there is one only with HTTPS on.
pub open spec fn redirect_of(config: Config) -> Option<RedirectView> {
    if config.https {
        Some(RedirectView { port: HTTP_PORT, location: SECURE_ORIGIN@ })
    } else {
        None
    }
}

/// The body of the metrics page: what the API answered, or nothing where it
/// could not be reached.
pub open spec fn metrics_of(upstream: Option<Seq<char>>) -> Seq<char> {
    match upstream {
        Some(text) => text,
        None => Seq::empty(),
    }
}

/// How the main server listens under `config`.
pub fn main_listener(config: &Config) -> (listener: Listener)
    ensures
        listener@ == listener_of(*config),
{
    if config.https {
        Listener::Tls {
            port: config.port,
            cert_path: String::from_str(CERT_PATH),
            key_path: String::from_str(KEY_PATH),
        }
    } else {
        Listener::Plain { port: config.port }
    }
}

/// The redirect from plain HTTP to the secure origin, if `config` asks for
/// one.
pub fn http_redirect(config: &Config) -> (redirect: Option<Redirect>)
    ensures
        match redirect {
            Some(redirect) => redirect_of(*config) == Some(redirect@),
            None => redirect_of(*config) is None,
        },
{
    if config.https {
        Some(Redirect { port: HTTP_PORT, location: String::from_str(SECURE_ORIGIN) })
    } else {
        None
    }
}

/// The body with which the metrics page answers, given what came from the
/// API: a failure upstream is answered with an empty body, never with an
/// error.
pub fn metrics_body(upstream: Option<String>) -> (body: String)
    ensures
        body@ == metrics_of(
            match upstream {
                Some(text) => Some(text@),
                None => None,
            },
        ),
{
    match upstream {
        Some(text) => text,
        None => String::new(),
    }
}

/// The redirect goes with TLS: there is one exactly when the main server
/// speaks TLS, and the main server listens on the configured port either way.
pub proof fn lemma_redirect_goes_with_tls(config: Config)
    ensures
        redirect_of(config) is Some <==> listener_of(config) is Tls,
        listener_of(config) is Tls <==> config.https,
        listener_of(config) matches ListenerView::Tls { port, .. } ==> port == config.port,
        listener_of(config) matches ListenerView::Plain { port } ==> port == config.port,
{
}

} // verus!
