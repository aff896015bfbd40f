//! What the daemon decides before it serves: how it listens and where it
//! notes its process id.

use vstd::prelude::*;

use crate::text::decimal;
use crate::text::decimal_string;

verus! {

/// How the daemon listens.
#[derive(Debug)]
pub enum Transport {
    /// Plain HTTP.
    Http,
    /// HTTPS with the given certificate and private key.
    Https { certificate: Vec<u8>, private_key: Vec<u8> },
}

/// A certificate was given without a key, or a key without a certificate.
#[derive(Debug, PartialEq, Eq, Clone, Copy, Structural)]
pub struct HalfTls;

/// How the daemon listens, given the certificate and the key that it was
/// started with: with both over HTTPS, with neither over HTTP.
pub open spec fn transport_of(cert: Option<Vec<u8>>, key: Option<Vec<u8>>) -> Result<
    Transport,
    HalfTls,
> {
    match (cert, key) {
        (Some(c), Some(k)) => Ok(Transport::Https { certificate: c, private_key: k }),
        (None, None) => Ok(Transport::Http),
        _ => Err(HalfTls),
    }
}

/// Decides how the daemon listens. A certificate without a key, or a key
/// without a certificate, is an error of the configuration.
pub fn transport(cert: Option<Vec<u8>>, key: Option<Vec<u8>>) -> (res: Result<Transport, HalfTls>)
    ensures
        res == transport_of(cert, key),
{
    match (cert, key) {
        (Some(c), Some(k)) => Ok(Transport::Https { certificate: c, private_key: k }),
        (None, None) => Ok(Transport::Http),
        _ => Err(HalfTls),
    }
}

/// The file in which the daemon of the user `uid` notes its process id when
/// it is told no other.
pub open spec fn default_pidfile_of(uid: u32) -> Seq<char> {
    "/run/user/"@ + decimal(uid as nat) + "/qmanager.pid"@
}

/// Names the file in which the daemon of the user `uid` notes its process
/// id when it is told no other.
pub fn default_pidfile(uid: u32) -> (path: String)
    ensures
        path@ == default_pidfile_of(uid),
{
    let mut path = "/run/user/".to_owned();
    path.append(decimal_string(uid as u64).as_str());
    path.append("/qmanager.pid");
    path
}

} // verus!
