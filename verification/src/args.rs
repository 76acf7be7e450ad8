//! The command surface: one argument struct per command, and the
//! [`Runnable`] trait that runs a command against the certificate
//! authority core. Argument parsing, the wall clock and all file and
//! network plumbing live outside the library; a command receives its
//! inputs and the current time as plain values.

use vstd::prelude::*;
use vstd::string::StrSliceExecFns;

use crate::Error;
use crate::ca::{CaCore, MAX_NOT_AFTER, audit_appended, spec_revoke, window_ok};
use crate::engine::{algorithm_of_tag, verifies};

verus! {

/// The whole command line: the global output-mode flag and one command.
pub struct Cli {
    /// Output logs in JSON.
    pub json: bool,
    pub command: Commands,
}

/// The commands the tool offers.
pub enum Commands {
    /// Generate the offline root CA.
    InitRoot(InitRootArgs),
    /// Sign or verify a file's detached signature.
    Signature(SignatureArgs),
    /// Sign a certificate with the root CA.
    SignCert(SignCertArgs),
    /// Serve an HTTP API for certificate requests.
    Serve(ServeArgs),
    /// Revoke a certificate.
    Revoke(RevokeArgs),
}

/// Arguments of root-CA creation.
pub struct InitRootArgs {
    /// Common name for the root certificate.
    pub cn: String,
    /// Validity of the root, in days.
    pub days: u32,
    /// Store the key in an HSM slot; accepted and recorded, nothing more.
    pub hsm: Option<u32>,
    /// Overwrite an existing root.
    pub force: bool,
}

/// Arguments of leaf-certificate issuance.
pub struct SignCertArgs {
    /// Common name for the new certificate.
    pub cn: String,
    /// Validity period in days.
    pub days: u32,
    /// Subject alternative names.
    pub san: Vec<String>,
}

/// Arguments of certificate revocation.
pub struct RevokeArgs {
    /// Serial of the certificate to revoke.
    pub serial: String,
}

/// Arguments of the gateway server.
pub struct ServeArgs {
    /// Address to bind.
    pub addr: String,
    /// TLS certificate path.
    pub tls_cert: String,
    /// TLS private key path.
    pub tls_key: String,
    /// Bearer token for authentication.
    pub token: String,
}

/// Arguments of message signing.
pub struct SignArgs {
    /// Message to sign.
    pub message: String,
    /// Algorithm tag.
    pub algorithm: String,
}

/// Arguments of file signing and verification.
pub struct SignatureArgs {
    /// File to sign or verify.
    pub file: String,
    /// Algorithm tag.
    pub algorithm: String,
    /// Sign the file.
    pub sign: bool,
    /// Verify the file.
    pub verify: bool,
}

/// A command that runs against the core at a given time. Commands whose
/// work is file or network plumbing run outside the library and call the
/// core's operations directly.
pub trait Runnable {
    fn run(self, core: &mut CaCore, now: u64) -> (r: Result<(), Error>)
        requires
            old(core).inv(),
        ensures
            final(core).inv(),
            r is Err ==> *final(core) == *old(core),
    ;
}

impl Runnable for InitRootArgs {
    /// Creates the root anchor; the command's contract mirrors
    /// [`CaCore::create_root`].
    fn run(self, core: &mut CaCore, now: u64) -> (r: Result<(), Error>)
        ensures
            (old(core).spec_root() is Some && !self.force) <==> r == Err::<(), Error>(
                Error::AlreadyExists,
            ),
            r == Err::<(), Error>(Error::ValidityOutOfRange) ==> !window_ok(
                now,
                self.days,
                MAX_NOT_AFTER,
            ),
            r is Ok ==> {
                &&& final(core).spec_root() matches Some(rt) && rt.cn@ == self.cn@ && rt.not_after
                    == now + self.days * 86400 && rt.cert_pem@.len() > 0 && rt.key_pem@.len() > 0
                &&& final(core).spec_certs() == old(core).spec_certs()
                &&& final(core).spec_revoked() == old(core).spec_revoked()
                &&& audit_appended(
                    old(core).spec_audit(),
                    final(core).spec_audit(),
                    now,
                    "init-root"@,
                    final(core).spec_root().unwrap().cert_pem@,
                )
            },
    {
        core.create_root(self.cn, self.days, self.force, now)
    }
}

impl Runnable for SignCertArgs {
    /// Issues a leaf certificate; the command's contract mirrors
    /// [`CaCore::issue`].
    fn run(self, core: &mut CaCore, now: u64) -> (r: Result<(), Error>)
        ensures
            (old(core).spec_root() is None) <==> r == Err::<(), Error>(Error::NoRootAnchor),
            old(core).spec_root() matches Some(rt) && !window_ok(now, self.days, rt.not_after)
                ==> r == Err::<(), Error>(Error::ValidityOutOfRange),
            r is Ok ==> {
                &&& old(core).spec_root() matches Some(rt) && window_ok(
                    now,
                    self.days,
                    rt.not_after,
                ) && final(core).spec_certs().last().issuer_pem@ == rt.cert_pem@
                &&& final(core).spec_certs().len() == old(core).spec_certs().len() + 1
                &&& final(core).spec_certs().take(old(core).spec_certs().len() as int) == old(
                    core,
                ).spec_certs()
                &&& final(core).spec_certs().last().cn@ == self.cn@
                &&& final(core).spec_certs().last().sans == self.san
                &&& final(core).spec_certs().last().not_after == now + self.days * 86400
                &&& final(core).spec_root() == old(core).spec_root()
                &&& final(core).spec_revoked() == old(core).spec_revoked()
                &&& audit_appended(
                    old(core).spec_audit(),
                    final(core).spec_audit(),
                    now,
                    "sign-cert"@,
                    self.cn@,
                )
            },
    {
        match core.issue(self.cn, self.san, self.days, now) {
            Ok(_) => Ok(()),
            Err(e) => Err(e),
        }
    }
}

impl Runnable for RevokeArgs {
    /// Revokes a serial; the command's contract mirrors
    /// [`CaCore::revoke`]: membership holds afterwards, once or many
    /// times, with one ledger entry and one audit record per call.
    fn run(self, core: &mut CaCore, now: u64) -> (r: Result<(), Error>)
        ensures
            r is Ok,
            final(core).spec_revoked() == spec_revoke(old(core).spec_revoked(), self.serial@),
            final(core).spec_revoked().contains(self.serial@),
            audit_appended(
                old(core).spec_audit(),
                final(core).spec_audit(),
                now,
                "revoke"@,
                self.serial@,
            ),
            final(core).spec_root() == old(core).spec_root(),
            final(core).spec_certs() == old(core).spec_certs(),
    {
        core.revoke(self.serial, now);
        Ok(())
    }
}

impl Runnable for SignArgs {
    /// Signs the message under the named algorithm; the command's
    /// contract mirrors [`CaCore::sign_message`].
    fn run(self, core: &mut CaCore, now: u64) -> (r: Result<(), Error>)
        ensures
            r == Err::<(), Error>(Error::UnknownAlgorithm) <==> algorithm_of_tag(
                self.algorithm@,
            ) is None,
            r is Ok ==> {
                &&& final(core).spec_artifacts().len() == old(core).spec_artifacts().len() + 1
                &&& algorithm_of_tag(self.algorithm@) matches Some(a) && final(core)
                    .spec_artifacts().last().algorithm == a
                &&& verifies(
                    final(core).spec_artifacts().last().algorithm,
                    final(core).spec_artifacts().last().public_key@,
                    final(core).spec_artifacts().last().signature@,
                    vstd::utf8::encode_utf8(self.message@),
                )
                &&& audit_appended(
                    old(core).spec_audit(),
                    final(core).spec_audit(),
                    now,
                    "sign"@,
                    self.algorithm@,
                )
            },
    {
        let msg = self.message.as_str().as_bytes_vec();
        match core.sign_message(&self.algorithm, &msg, now) {
            Ok(_) => Ok(()),
            Err(e) => Err(e),
        }
    }
}

} // verus!
