//! Choosing how to sign in to a music server.

use std::sync::Arc;
use vstd::prelude::*;

use crate::error::MusicbirbError;
use crate::text::{join_str, str_eq};

verus! {

/// What is kept to sign in again later.
#[derive(Clone, Debug, PartialEq)]
pub enum AuthCredential {
    Password(String),
    Token(String),
}

/// The first step of signing in to a provider.
#[derive(Clone, Debug, PartialEq)]
pub enum AuthStep {
    /// Ask for a user name and a password.
    UserPass,
    /// Let the user approve the sign-in in a browser.
    BrowserAuth { auth_url: String, display_code: String, polling_id: String },
}

/// A signed-in provider and the credential to keep for next time.
pub struct AuthResult<P> {
    pub provider: P,
    pub credential: AuthCredential,
}

/// The family of server client that a provider name selects.
#[derive(Clone, Copy, Debug, PartialEq, Eq, Structural)]
pub enum ProviderKind {
    /// Subsonic compatible servers, Navidrome included.
    Subsonic,
    Jellyfin,
}

/// How to reconnect with a stored credential.
#[derive(Clone, Debug, PartialEq)]
pub enum Connection {
    /// Sign in to a Subsonic compatible server with this password.
    SubsonicPassword(String),
    /// Sign in to Jellyfin with this password.
    JellyfinPassword(String),
    /// Reuse this Jellyfin access token.
    JellyfinToken(String),
}

/// Signs users in to the supported providers.
pub struct Authenticator;

/// `e` is an internal error with message `text`.
pub open spec fn internal_error(e: MusicbirbError, text: Seq<char>) -> bool {
    e matches MusicbirbError::Internal(m) && m@ == text
}

/// Provider names served by a Subsonic compatible client.
pub open spec fn is_subsonic_name(p: Seq<char>) -> bool {
    p == "subsonic"@ || p == "navidrome"@
}

impl Authenticator {
    pub fn new() -> (r: Arc<Self>)
        ensures
            *r == Authenticator,
    {
        Arc::new(Authenticator)
    }

    /// The provider names that can be offered to the user.
    pub fn get_supported_providers(&self) -> (r: Vec<String>)
        ensures
            r@.map_values(|s: String| s@) == seq!["subsonic"@, "navidrome"@, "jellyfin"@, "plex"@],
    {
        let mut r: Vec<String> = Vec::new();
        r.push("subsonic".to_owned());
        r.push("navidrome".to_owned());
        r.push("jellyfin".to_owned());
        r.push("plex".to_owned());
        proof {
            assert(r@.map_values(|s: String| s@) =~= seq!["subsonic"@, "navidrome"@, "jellyfin"@, "plex"@]);
        }
        r
    }

    /// The first step of signing in to `provider`: a user name and password
    /// for Subsonic, Navidrome and Jellyfin. Plex is not available yet; other
    /// names are unknown.
    pub fn init_auth(&self, provider: String, server_url: String) -> (r: Result<AuthStep, MusicbirbError>)
        ensures
            if is_subsonic_name(provider@) || provider@ == "jellyfin"@ {
                r == Ok::<AuthStep, MusicbirbError>(AuthStep::UserPass)
            } else if provider@ == "plex"@ {
                r matches Err(e) && internal_error(e, "Plex OAuth flow not yet implemented"@)
            } else {
                r matches Err(e) && internal_error(e, "Unknown provider"@)
            },
    {
        let p = provider.as_str();
        if str_eq(p, "subsonic") || str_eq(p, "navidrome") || str_eq(p, "jellyfin") {
            Ok(AuthStep::UserPass)
        } else if str_eq(p, "plex") {
            Err(MusicbirbError::Internal("Plex OAuth flow not yet implemented".to_owned()))
        } else {
            Err(MusicbirbError::Internal("Unknown provider".to_owned()))
        }
    }

    /// Completing a browser sign-in: no provider offers one yet.
    pub fn poll_browser_auth<P>(&self, provider: String, server_url: String, polling_id: String) -> (r: Result<
        AuthResult<P>,
        MusicbirbError,
    >)
        ensures
            if provider@ == "plex"@ {
                r matches Err(e) && internal_error(e, "Plex polling not yet implemented"@)
            } else {
                r matches Err(e) && internal_error(e, "Provider does not support browser auth"@)
            },
    {
        if str_eq(provider.as_str(), "plex") {
            Err(MusicbirbError::Internal("Plex polling not yet implemented".to_owned()))
        } else {
            Err(MusicbirbError::Internal("Provider does not support browser auth".to_owned()))
        }
    }

    /// The client to sign in with a password to `provider`.
    pub fn password_login_kind(&self, provider: &str) -> (r: Result<ProviderKind, MusicbirbError>)
        ensures
            if is_subsonic_name(provider@) {
                r == Ok::<ProviderKind, MusicbirbError>(ProviderKind::Subsonic)
            } else if provider@ == "jellyfin"@ {
                r == Ok::<ProviderKind, MusicbirbError>(ProviderKind::Jellyfin)
            } else {
                r matches Err(e) && internal_error(
                    e,
                    "Provider '"@ + provider@ + "' does not support password login"@,
                )
            },
    {
        if str_eq(provider, "subsonic") || str_eq(provider, "navidrome") {
            Ok(ProviderKind::Subsonic)
        } else if str_eq(provider, "jellyfin") {
            Ok(ProviderKind::Jellyfin)
        } else {
            let head = join_str("Provider '", provider);
            let msg = join_str(head.as_str(), "' does not support password login");
            Err(MusicbirbError::Internal(msg))
        }
    }

    /// How to reconnect to `provider` with a stored `credential`. Subsonic
    /// compatible servers need a password; Jellyfin takes a password or a
    /// token.
    pub fn credential_connection(&self, provider: &str, credential: AuthCredential) -> (r: Result<
        Connection,
        MusicbirbError,
    >)
        ensures
            if is_subsonic_name(provider@) {
                match credential {
                    AuthCredential::Password(p) => r == Ok::<Connection, MusicbirbError>(
                        Connection::SubsonicPassword(p),
                    ),
                    AuthCredential::Token(_) => r matches Err(e) && e matches MusicbirbError::Auth(m) && m@
                        == "Subsonic requires a password credential"@,
                }
            } else if provider@ == "jellyfin"@ {
                match credential {
                    AuthCredential::Password(p) => r == Ok::<Connection, MusicbirbError>(
                        Connection::JellyfinPassword(p),
                    ),
                    AuthCredential::Token(t) => r == Ok::<Connection, MusicbirbError>(
                        Connection::JellyfinToken(t),
                    ),
                }
            } else {
                r matches Err(e) && internal_error(e, "Unknown provider"@)
            },
    {
        if str_eq(provider, "subsonic") || str_eq(provider, "navidrome") {
            match credential {
                AuthCredential::Password(pass) => Ok(Connection::SubsonicPassword(pass)),
                AuthCredential::Token(_) => Err(
                    MusicbirbError::Auth("Subsonic requires a password credential".to_owned()),
                ),
            }
        } else if str_eq(provider, "jellyfin") {
            match credential {
                AuthCredential::Password(pass) => Ok(Connection::JellyfinPassword(pass)),
                AuthCredential::Token(token) => Ok(Connection::JellyfinToken(token)),
            }
        } else {
            Err(MusicbirbError::Internal("Unknown provider".to_owned()))
        }
    }
}

} // verus!
