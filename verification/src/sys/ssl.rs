//! Certificates: where the chain and the key of a domain go, and with which
//! modes.

use crate::error::{AgentError, ErrorKind};
use crate::sys::names::{check_domain, domain_fault, joined};
use crate::sys::secrets::ProviderCredential;
use vstd::prelude::*;
use vstd::string::*;

verus! {

/// The mode of a domain's certificate directory.
pub const CERT_DIR_MODE: u32 = 0o750;

/// The mode of the certificate chain.
pub const FULLCHAIN_MODE: u32 = 0o644;

/// The mode that the private key's file is created with.
pub const PRIVKEY_MODE: u32 = 0o600;

pub struct SslPayload {
    pub domain_name: String,
    pub fullchain_pem: String,
    pub privkey_pem: ProviderCredential,
}

#[derive(Debug)]
pub struct LinuxSslEngine {
    pub ssl_storage_dir: String,
}

/// The places and modes of what installing a certificate writes. The key's
/// file is opened with its mode, so that it never exists with another.
#[derive(Debug)]
pub struct CertificatePlan {
    pub domain_dir: String,
    pub dir_mode: u32,
    pub fullchain_path: String,
    pub fullchain_mode: u32,
    pub privkey_path: String,
    pub privkey_mode: u32,
}

/// How the writing of the private key ended.
#[derive(Clone, Copy, Debug, PartialEq, Eq, Structural)]
pub enum KeyWrite {
    Written,
    OpenFailed,
    WriteFailed,
    SyncFailed,
}

/// What follows the writing of the private key.
#[derive(Debug)]
pub struct KeyVerdict {
    /// Whether the key's file, left unfinished, is to be removed.
    pub remove_partial: bool,
    pub result: Result<(), AgentError>,
}

pub open spec fn fullchain_path(dir: Seq<char>, domain: Seq<char>) -> Seq<char> {
    joined(dir, domain) + "/fullchain.pem"@
}

pub open spec fn privkey_path(dir: Seq<char>, domain: Seq<char>) -> Seq<char> {
    joined(dir, domain) + "/privkey.pem"@
}

/// The message for a key that was not written, before the cause.
pub open spec fn key_failure_prefix(outcome: KeyWrite) -> Seq<char> {
    match outcome {
        KeyWrite::Written => Seq::empty(),
        KeyWrite::OpenFailed => "Failed to open privkey file securely: "@,
        KeyWrite::WriteFailed => "Failed to write secret bytes: "@,
        KeyWrite::SyncFailed => "Failed to sync privkey to disk: "@,
    }
}

/// What the agent asks of a certificate store.
pub trait SslEngine {
    /// The directory below which certificates are kept.
    spec fn storage_dir(&self) -> Seq<char>;

    /// Checks the payload's domain and says where its certificate goes: a
    /// directory of mode `0o750` named after the domain, the chain in it with
    /// mode `0o644`, the key with mode `0o600`.
    fn install_certificate(&self, payload: &SslPayload) -> (r: Result<
        CertificatePlan,
        AgentError,
    >)
        ensures
            match domain_fault(payload.domain_name@) {
                Some(m) => r.is_err() && r.unwrap_err().is(ErrorKind::SecurityViolation, m),
                None => r.is_ok() && {
                    let p = r.unwrap();
                    &&& p.domain_dir@ == joined(self.storage_dir(), payload.domain_name@)
                    &&& p.dir_mode == 0o750
                    &&& p.fullchain_path@ == fullchain_path(
                        self.storage_dir(),
                        payload.domain_name@,
                    )
                    &&& p.fullchain_mode == 0o644
                    &&& p.privkey_path@ == privkey_path(
                        self.storage_dir(),
                        payload.domain_name@,
                    )
                    &&& p.privkey_mode == 0o600
                },
            },
    ;
}

impl SslEngine for LinuxSslEngine {
    open spec fn storage_dir(&self) -> Seq<char> {
        self.ssl_storage_dir@
    }

    fn install_certificate(&self, payload: &SslPayload) -> (r: Result<
        CertificatePlan,
        AgentError,
    >) {
        match check_domain(payload.domain_name.as_str()) {
            Err(e) => {
                return Err(e);
            },
            Ok(()) => {},
        }
        let mut domain_dir = self.ssl_storage_dir.clone();
        domain_dir.append("/");
        domain_dir.append(payload.domain_name.as_str());
        let mut fullchain = domain_dir.clone();
        fullchain.append("/fullchain.pem");
        let mut privkey = domain_dir.clone();
        privkey.append("/privkey.pem");
        Ok(
            CertificatePlan {
                domain_dir,
                dir_mode: CERT_DIR_MODE,
                fullchain_path: fullchain,
                fullchain_mode: FULLCHAIN_MODE,
                privkey_path: privkey,
                privkey_mode: PRIVKEY_MODE,
            },
        )
    }
}

impl LinuxSslEngine {
    pub fn new(ssl_storage_dir: String) -> (r: Self)
        ensures
            r.ssl_storage_dir == ssl_storage_dir,
    {
        LinuxSslEngine { ssl_storage_dir }
    }

    /// Decides what follows the writing of the key: after any failure the
    /// unfinished file is removed and the failure reported with its cause.
    pub fn finish_key_write(&self, outcome: KeyWrite, cause: &str) -> (v: KeyVerdict)
        ensures
            outcome == KeyWrite::Written ==> !v.remove_partial && v.result.is_ok(),
            outcome != KeyWrite::Written ==> v.remove_partial && v.result.is_err()
                && v.result.unwrap_err().is(ErrorKind::Io, key_failure_prefix(outcome) + cause@),
    {
        let prefix = match outcome {
            KeyWrite::Written => {
                return KeyVerdict { remove_partial: false, result: Ok(()) };
            },
            KeyWrite::OpenFailed => "Failed to open privkey file securely: ",
            KeyWrite::WriteFailed => "Failed to write secret bytes: ",
            KeyWrite::SyncFailed => "Failed to sync privkey to disk: ",
        };
        let mut message = String::from_str(prefix);
        message.append(cause);
        KeyVerdict {
            remove_partial: true,
            result: Err(AgentError { kind: ErrorKind::Io, message }),
        }
    }
}
} // verus!
