use vstd::prelude::*;

use crate::error::LibrespotError;

verus! {

/// The characters of an optional string.
pub open spec fn opt_view(o: Option<String>) -> Option<Seq<char>> {
    match o {
        Some(s) => Some(s@),
        None => None,
    }
}

/// The `Debug` rendering of an optional string, as in `Some("alsa")`.
pub uninterp spec fn option_debug(o: Option<Seq<char>>) -> Seq<char>;

/// Relies on the standard library's `Debug` formatting of `Option<String>`,
/// which depends on the value alone and renders `None` as `None`.
#[verifier::external_body]
fn debug_text(o: &Option<String>) -> (r: String)
    ensures
        r@ == option_debug(opt_view(*o)),
        o is None ==> r@ == "None"@,
{
    format!("{:?}", o)
}

/// The audio backend found under the configured name, or the error that
/// names it.
pub fn check_backend<B>(found: Option<B>, name: &Option<String>) -> (r: Result<
    B,
    LibrespotError,
>)
    ensures
        (match found {
            Some(b) => r matches Ok(v) && v == b,
            None => r matches Err(LibrespotError::IllegalConfig(m)) && m@ == "Invalid backend "@
                + option_debug(opt_view(*name)),
        }),
{
    match found {
        Some(b) => Ok(b),
        None => {
            let m = String::from_str("Invalid backend ").concat(debug_text(name).as_str());
            Err(LibrespotError::IllegalConfig(m))
        },
    }
}

/// The mixer found under the configured name, or the error that names it.
pub fn check_mixer<M>(found: Option<M>, name: &Option<String>) -> (r: Result<
    M,
    LibrespotError,
>)
    ensures
        (match found {
            Some(x) => r matches Ok(v) && v == x,
            None => r matches Err(LibrespotError::IllegalConfig(m)) && m@ == "Invalid mixer "@
                + option_debug(opt_view(*name)),
        }),
{
    match found {
        Some(x) => Ok(x),
        None => {
            let m = String::from_str("Invalid mixer ").concat(debug_text(name).as_str());
            Err(LibrespotError::IllegalConfig(m))
        },
    }
}

/// Largest volume that can be configured, in percent.
pub const MAX_VOLUME_PERCENT: u16 = 100;

/// A volume in percent on the device's scale of 0 to 0xFFFF.
pub open spec fn scaled_volume(percent: u16) -> u16 {
    (percent as int * 0xFFFF / 100) as u16
}

/// The volume the device starts with: the configured percentage, scaled,
/// or else the volume stored in the cache.
pub fn initial_volume(requested: Option<u16>, cached: Option<u16>) -> (r: Option<u16>)
    requires
        requested matches Some(v) ==> v <= MAX_VOLUME_PERCENT,
    ensures
        requested matches Some(v) ==> r == Some(scaled_volume(v)),
        requested is None ==> r == cached,
{
    match requested {
        Some(v) => {
            let scaled: u32 = v as u32 * 0xFFFF / 100;
            Some(scaled as u16)
        },
        None => cached,
    }
}

/// Where the credentials for the login come from.
#[derive(Debug)]
pub enum CredentialChoice<C> {
    /// A user name and password that were supplied.
    Password { username: String, password: String },
    /// Credentials stored by an earlier login.
    Stored(C),
}

/// Chooses the credentials: a supplied user name and password when both are
/// given, else the stored credentials, else the error that they are missing.
pub fn resolve_credentials<C>(
    username: Option<String>,
    password: Option<String>,
    stored: Option<C>,
) -> (r: Result<CredentialChoice<C>, LibrespotError>)
    ensures
        (match (username, password) {
            (Some(u), Some(p)) => r matches Ok(CredentialChoice::Password { username: ru, password: rp })
                && ru@ == u@ && rp@ == p@,
            _ => match stored {
                Some(c) => r matches Ok(CredentialChoice::Stored(rc)) && rc == c,
                None => r matches Err(LibrespotError::MissingCredentials),
            },
        }),
{
    match (username, password) {
        (Some(username), Some(password)) => Ok(CredentialChoice::Password { username, password }),
        _ => match stored {
            Some(c) => Ok(CredentialChoice::Stored(c)),
            None => Err(LibrespotError::MissingCredentials),
        },
    }
}

} // verus!
