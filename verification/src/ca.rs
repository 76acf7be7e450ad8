//! The certificate authority core: root anchor lifecycle, leaf issuance,
//! the revocation ledger and the audit trail, all over one in-memory trust
//! store. Durability (writing the store's records to disk) is the caller's
//! concern; every rule about what the records may hold lives here.

use vstd::prelude::*;

#[allow(unused_imports)]
use rcgen::{BasicConstraints, CertificateParams, DnType, IsCa, Issuer, KeyPair};

use crate::Error;
use crate::engine::{Algorithm, algorithm_of_tag, generate_keypair, parse_algorithm, sign, verify, verifies, wipe};

verus! {

/// The largest representable not-after timestamp (9999-12-31T23:59:59Z),
/// the last second the certificate builder accepts.
pub const MAX_NOT_AFTER: u64 = 253402300799;

/// The root trust anchor: a self-signed, CA-capable certificate and its
/// private key. Created once, read by issuance, never mutated.
pub struct StoredRoot {
    pub cn: String,
    pub not_after: u64,
    pub cert_pem: String,
    pub key_pem: String,
}

/// A leaf certificate chained to the root anchor, keyed by a sequence
/// number so that two issuances for one CN never collide.
pub struct IssuedCertificate {
    pub id: usize,
    pub cn: String,
    pub sans: Vec<String>,
    pub not_after: u64,
    pub cert_pem: String,
    pub key_pem: String,
    /// The certificate of the root anchor that signed this leaf.
    pub issuer_pem: String,
}

/// One record of the append-only audit trail.
pub struct AuditEntry {
    pub ts: u64,
    pub action: String,
    pub details: String,
}

/// A detached signature artifact: algorithm, public key and signature.
/// The signed message itself is never retained.
pub struct SignatureArtifact {
    pub algorithm: Algorithm,
    pub public_key: Vec<u8>,
    pub signature: Vec<u8>,
}

/// The trust store and the rules over it. All mutation goes through the
/// methods below; each one either succeeds or leaves the store unchanged.
pub struct CaCore {
    root: Option<StoredRoot>,
    certs: Vec<IssuedCertificate>,
    revoked: Vec<String>,
    audit: Vec<AuditEntry>,
    artifacts: Vec<SignatureArtifact>,
}

/// One revocation step over the ledger model: a serial enters the set once
/// and a re-revocation changes nothing.
pub open spec fn spec_revoke(ledger: Seq<Seq<char>>, serial: Seq<char>) -> Seq<Seq<char>> {
    if ledger.contains(serial) {
        ledger
    } else {
        ledger.push(serial)
    }
}

/// Replaying a sequence of serials into the ledger, in order, each with
/// set semantics: the model of restoring the ledger from its durable,
/// append-only copy.
pub open spec fn spec_restore(ledger: Seq<Seq<char>>, serials: Seq<Seq<char>>) -> Seq<Seq<char>>
    decreases serials.len(),
{
    if serials.len() == 0 {
        ledger
    } else {
        spec_restore(spec_revoke(ledger, serials[0]), serials.skip(1))
    }
}

/// The audit trail grew by exactly one record with the given content.
pub open spec fn audit_appended(
    pre: Seq<AuditEntry>,
    post: Seq<AuditEntry>,
    ts: u64,
    action: Seq<char>,
    details: Seq<char>,
) -> bool {
    &&& post.len() == pre.len() + 1
    &&& post.take(pre.len() as int) == pre
    &&& post.last().ts == ts
    &&& post.last().action@ == action
    &&& post.last().details@ == details
}

/// A validity window of `days` days starting at `now` is positive and ends
/// no later than `limit`.
pub open spec fn window_ok(now: u64, days: u32, limit: u64) -> bool {
    days >= 1 && now + days * 86400 <= limit
}

impl CaCore {
    /// The root anchor, if one has been created.
    pub closed spec fn spec_root(&self) -> Option<StoredRoot> {
        self.root
    }

    /// Every certificate issued so far, in issuance order.
    pub closed spec fn spec_certs(&self) -> Seq<IssuedCertificate> {
        self.certs@
    }

    /// The revocation ledger, in first-revocation order.
    pub closed spec fn spec_revoked(&self) -> Seq<Seq<char>> {
        self.revoked@.map_values(|s: String| s@)
    }

    /// The audit trail, in write order.
    pub closed spec fn spec_audit(&self) -> Seq<AuditEntry> {
        self.audit@
    }

    /// Every stored detached-signature artifact, in creation order.
    pub closed spec fn spec_artifacts(&self) -> Seq<SignatureArtifact> {
        self.artifacts@
    }

    /// Well-formedness: the ledger holds each serial at most once, each
    /// certificate is keyed by its position, and the root anchor's
    /// not-after is representable.
    pub open spec fn inv(&self) -> bool {
        &&& forall|i: int, j: int|
            0 <= i < j < self.spec_revoked().len() ==> self.spec_revoked()[i]
                != self.spec_revoked()[j]
        &&& forall|i: int| 0 <= i < self.spec_certs().len() ==> #[trigger] self.spec_certs()[i].id
            == i
        &&& self.spec_root() matches Some(rt) ==> rt.not_after <= MAX_NOT_AFTER
    }

    /// An empty trust store: no root, nothing issued, nothing revoked,
    /// an empty audit trail.
    pub fn new() -> (r: CaCore)
        ensures
            r.inv(),
            r.spec_root() is None,
            r.spec_certs() =~= Seq::<IssuedCertificate>::empty(),
            r.spec_revoked() =~= Seq::<Seq<char>>::empty(),
            r.spec_audit() =~= Seq::<AuditEntry>::empty(),
            r.spec_artifacts() =~= Seq::<SignatureArtifact>::empty(),
    {
        CaCore {
            root: None,
            certs: Vec::new(),
            revoked: Vec::new(),
            audit: Vec::new(),
            artifacts: Vec::new(),
        }
    }

    /// Whether `serial` has been revoked.
    pub fn is_revoked(&self, serial: &String) -> (r: bool)
        ensures
            r == self.spec_revoked().contains(serial@),
    {
        let mut i: usize = 0;
        while i < self.revoked.len()
            invariant
                0 <= i <= self.revoked.len(),
                forall|j: int| 0 <= j < i ==> self.spec_revoked()[j] != serial@,
                self.spec_revoked().len() == self.revoked.len(),
                forall|j: int|
                    0 <= j < self.revoked.len() ==> self.spec_revoked()[j] == self.revoked@[j]@,
            decreases self.revoked.len() - i,
        {
            if self.revoked[i] == *serial {
                proof {
                    assert(self.spec_revoked()[i as int] == serial@);
                }
                return true;
            }
            i = i + 1;
        }
        false
    }

    /// Records `serial` in the revocation ledger and the audit trail.
    ///
    /// Revocation is monotone and idempotent: a serial already present is
    /// left as it is, and membership never reverts. The audit trail gains
    /// one `revoke` record on every call.
    pub fn revoke(&mut self, serial: String, now: u64)
        requires
            old(self).inv(),
        ensures
            final(self).inv(),
            final(self).spec_revoked() == spec_revoke(old(self).spec_revoked(), serial@),
            final(self).spec_revoked().contains(serial@),
            audit_appended(
                old(self).spec_audit(),
                final(self).spec_audit(),
                now,
                "revoke"@,
                serial@,
            ),
            final(self).spec_root() == old(self).spec_root(),
            final(self).spec_certs() == old(self).spec_certs(),
            final(self).spec_artifacts() == old(self).spec_artifacts(),
    {
        let ghost s_view = serial@;
        let present = self.is_revoked(&serial);
        let entry = AuditEntry {
            ts: now,
            action: String::from_str("revoke"),
            details: serial.clone(),
        };
        if !present {
            let ghost pre = self.spec_revoked();
            let ghost s = serial@;
            self.revoked.push(serial);
            proof {
                assert(self.spec_revoked() =~= pre.push(s));
                assert(self.spec_revoked()[pre.len() as int] == s);
                assert(self.spec_revoked().contains(s));
                assert forall|i: int, j: int|
                    0 <= i < j < self.spec_revoked().len() implies self.spec_revoked()[i]
                    != self.spec_revoked()[j] by {
                    assert(self.spec_revoked()[i] == pre[i]);
                    if j == pre.len() as int {
                        if pre[i] == s {
                            assert(pre.contains(s));
                        }
                    } else {
                        assert(self.spec_revoked()[j] == pre[j]);
                    }
                }
            }
        }
        let ghost pre_audit = self.spec_audit();
        self.audit.push(entry);
        proof {
            assert(self.spec_audit().take(pre_audit.len() as int) =~= pre_audit);
            assert(self.spec_revoked() == spec_revoke(old(self).spec_revoked(), s_view));
            lemma_revoke_single_entry(old(self).spec_revoked(), s_view);
            assert(self.spec_certs() == old(self).spec_certs());
            assert forall|i: int| 0 <= i < self.spec_certs().len() implies #[trigger] self
                .spec_certs()[i].id == i by {
                assert(old(self).spec_certs()[i].id == i);
            }
        }
    }
}

/// Law: revocation is idempotent. Revoking a serial a second time (or any
/// further time) leaves the ledger exactly as one revocation left it, the
/// serial is a member afterwards, and membership of every serial is
/// preserved by every revocation.
pub proof fn lemma_revoke_idempotent(ledger: Seq<Seq<char>>, serial: Seq<char>)
    ensures
        spec_revoke(spec_revoke(ledger, serial), serial) == spec_revoke(ledger, serial),
        spec_revoke(ledger, serial).contains(serial),
        forall|s: Seq<char>| ledger.contains(s) ==> spec_revoke(ledger, serial).contains(s),
{
    if !ledger.contains(serial) {
        assert(ledger.push(serial)[ledger.len() as int] == serial);
        assert(spec_revoke(ledger, serial).contains(serial));
        assert forall|s: Seq<char>| ledger.contains(s) implies spec_revoke(
            ledger,
            serial,
        ).contains(s) by {
            let i = choose|i: int| 0 <= i < ledger.len() && ledger[i] == s;
            assert(ledger.push(serial)[i] == s);
        }
    }
}

/// Law: a revoked serial holds exactly one ledger entry. In a ledger
/// without duplicates — the invariant every [`CaCore`] operation keeps —
/// each serial appears at most once, so `revoke` once or many times yields
/// one logical entry.
pub proof fn lemma_revoke_single_entry(ledger: Seq<Seq<char>>, serial: Seq<char>)
    requires
        forall|i: int, j: int| 0 <= i < j < ledger.len() ==> ledger[i] != ledger[j],
    ensures
        forall|i: int, j: int|
            0 <= i < j < spec_revoke(ledger, serial).len() ==> spec_revoke(ledger, serial)[i]
                != spec_revoke(ledger, serial)[j],
{
    let post = spec_revoke(ledger, serial);
    if !ledger.contains(serial) {
        assert forall|i: int, j: int| 0 <= i < j < post.len() implies post[i] != post[j] by {
            if j == ledger.len() as int {
                assert(post[i] == ledger[i]);
                assert(!ledger.contains(serial));
                assert(ledger[i] != serial);
            }
        }
    }
}


/// Relies on rcgen (`CertificateParams::new`, `KeyPair::generate`,
/// `CertificateParams::self_signed`, `Certificate::pem`,
/// `KeyPair::serialize_pem`) to build a self-signed CA certificate with the
/// given common name and not-after second, returning the certificate and
/// private key as PEM text. The key is freshly generated, so nothing more
/// than success or failure can be promised of the output.
#[verifier::external_body]
fn build_self_signed_ca(cn: &String, not_after: u64) -> (r: Result<(String, String), Error>)
    ensures
        r matches Ok(p) ==> p.0@.len() > 0 && p.1@.len() > 0,
        r matches Err(e) ==> e == Error::CryptoError,
{
    let mut params = CertificateParams::new(Vec::<String>::new())
        .map_err(|_| Error::CryptoError)?;
    params.is_ca = IsCa::Ca(BasicConstraints::Unconstrained);
    params.distinguished_name.push(DnType::CommonName, cn.as_str());
    params.not_after = time::OffsetDateTime::from_unix_timestamp(not_after as i64)
        .map_err(|_| Error::CryptoError)?;
    let key = KeyPair::generate().map_err(|_| Error::CryptoError)?;
    let cert = params.self_signed(&key).map_err(|_| Error::CryptoError)?;
    Ok((cert.pem(), key.serialize_pem()))
}

/// Relies on rcgen (`KeyPair::from_pem`, `Issuer::from_ca_cert_pem`,
/// `CertificateParams::new`, `KeyPair::generate`,
/// `CertificateParams::signed_by`) to build a leaf certificate with the
/// given common name, subject alternative names and not-after second,
/// signed by the root whose PEM pair is supplied.
#[verifier::external_body]
fn build_leaf_signed_by_root(
    root_cert_pem: &String,
    root_key_pem: &String,
    cn: &String,
    sans: &Vec<String>,
    not_after: u64,
) -> (r: Result<(String, String), Error>)
    ensures
        r matches Ok(p) ==> p.0@.len() > 0 && p.1@.len() > 0,
        r matches Err(e) ==> e == Error::CryptoError,
{
    let ca_key = KeyPair::from_pem(root_key_pem.as_str()).map_err(|_| Error::CryptoError)?;
    let issuer = Issuer::from_ca_cert_pem(root_cert_pem.as_str(), ca_key)
        .map_err(|_| Error::CryptoError)?;
    let mut params = CertificateParams::new(sans.clone()).map_err(|_| Error::CryptoError)?;
    params.is_ca = IsCa::ExplicitNoCa;
    params.distinguished_name.push(DnType::CommonName, cn.as_str());
    params.not_after = time::OffsetDateTime::from_unix_timestamp(not_after as i64)
        .map_err(|_| Error::CryptoError)?;
    let key = KeyPair::generate().map_err(|_| Error::CryptoError)?;
    let cert = params.signed_by(&key, &issuer).map_err(|_| Error::CryptoError)?;
    Ok((cert.pem(), key.serialize_pem()))
}

/// Relies on crypt_guard's `KeyControKyber512::keypair` to pre-provision a
/// hybrid-trust companion keypair. The caller must wipe the secret half at
/// once; it is never persisted.
#[verifier::external_body]
fn kyber512_companion_keypair() -> (r: Result<(Vec<u8>, Vec<u8>), Error>)
    ensures
        r matches Err(e) ==> e == Error::CryptoError,
        r matches Ok(k) ==> k.0@.len() > 0,
{
    match crypt_guard::legacy::kyber_crypto::KeyControKyber512::keypair() {
        Ok(k) => Ok(k),
        Err(_) => Err(Error::CryptoError),
    }
}

impl CaCore {
    /// Creates the root trust anchor: a fresh classical keypair, a fresh
    /// post-quantum companion keypair whose secret is wiped at once, and a
    /// self-signed CA certificate with the given common name, valid for
    /// `days` days from `now`.
    ///
    /// If a root anchor already exists and `overwrite` is false, the call
    /// fails with `AlreadyExists` and the stored anchor is unchanged. On
    /// any failure the whole store is exactly as it was.
    pub fn create_root(&mut self, cn: String, days: u32, overwrite: bool, now: u64) -> (r: Result<
        (),
        Error,
    >)
        requires
            old(self).inv(),
        ensures
            final(self).inv(),
            r is Err ==> *final(self) == *old(self),
            (old(self).spec_root() is Some && !overwrite) <==> r == Err::<(), Error>(
                Error::AlreadyExists,
            ),
            (old(self).spec_root() is None || overwrite) && cn@.len() == 0 ==> r == Err::<
                (),
                Error,
            >(Error::CryptoError),
            r == Err::<(), Error>(Error::ValidityOutOfRange) ==> !window_ok(
                now,
                days,
                MAX_NOT_AFTER,
            ),
            (old(self).spec_root() is None || overwrite) && cn@.len() > 0 && !window_ok(
                now,
                days,
                MAX_NOT_AFTER,
            ) ==> r == Err::<(), Error>(Error::ValidityOutOfRange),
            (old(self).spec_root() is None || overwrite) && cn@.len() > 0 && window_ok(
                now,
                days,
                MAX_NOT_AFTER,
            ) ==> (r is Ok || r == Err::<(), Error>(Error::CryptoError)),
            r is Ok ==> {
                &&& (old(self).spec_root() is None || overwrite)
                &&& cn@.len() > 0
                &&& window_ok(now, days, MAX_NOT_AFTER)
                &&& final(self).spec_root() matches Some(rt) && rt.cn@ == cn@ && rt.not_after == now
                    + days * 86400 && rt.cert_pem@.len() > 0 && rt.key_pem@.len() > 0
                &&& final(self).spec_certs() == old(self).spec_certs()
                &&& final(self).spec_revoked() == old(self).spec_revoked()
                &&& final(self).spec_artifacts() == old(self).spec_artifacts()
                &&& audit_appended(
                    old(self).spec_audit(),
                    final(self).spec_audit(),
                    now,
                    "init-root"@,
                    final(self).spec_root().unwrap().cert_pem@,
                )
            },
    {
        if self.root.is_some() && !overwrite {
            return Err(Error::AlreadyExists);
        }
        if cn.as_str().is_empty() {
            return Err(Error::CryptoError);
        }
        let dsecs: u64 = (days as u64) * 86400;
        if days == 0 || now > MAX_NOT_AFTER || dsecs > MAX_NOT_AFTER - now {
            return Err(Error::ValidityOutOfRange);
        }
        let not_after: u64 = now + dsecs;
        match kyber512_companion_keypair() {
            Ok(k) => {
                let mut companion_secret = k.1;
                wipe(&mut companion_secret);
            },
            Err(e) => {
                return Err(e);
            },
        }
        match build_self_signed_ca(&cn, not_after) {
            Err(e) => Err(e),
            Ok(p) => {
                let entry = AuditEntry {
                    ts: now,
                    action: String::from_str("init-root"),
                    details: p.0.clone(),
                };
                self.root = Some(StoredRoot { cn, not_after, cert_pem: p.0, key_pem: p.1 });
                let ghost pre_audit = self.spec_audit();
                self.audit.push(entry);
                proof {
                    assert(self.spec_audit().take(pre_audit.len() as int) =~= pre_audit);
                    assert(self.spec_revoked() == old(self).spec_revoked());
                    assert(self.spec_certs() == old(self).spec_certs());
                    assert forall|i: int|
                        0 <= i < self.spec_certs().len() implies #[trigger] self.spec_certs()[i].id
                        == i by {
                        assert(old(self).spec_certs()[i].id == i);
                    }
                }
                Ok(())
            },
        }
    }

    /// Issues a leaf certificate chained to the root anchor: common name,
    /// subject alternative names, CA=false, not-after `now` plus `days`
    /// days, signed by the root's key. The new record is keyed by the
    /// returned sequence number.
    ///
    /// Fails with `NoRootAnchor` when no root exists, and with
    /// `ValidityOutOfRange` when the window is empty or would outlive the
    /// root anchor. On any failure the store is exactly as it was.
    pub fn issue(&mut self, cn: String, sans: Vec<String>, days: u32, now: u64) -> (r: Result<
        usize,
        Error,
    >)
        requires
            old(self).inv(),
        ensures
            final(self).inv(),
            r is Err ==> *final(self) == *old(self),
            (old(self).spec_root() is None) <==> r == Err::<usize, Error>(Error::NoRootAnchor),
            old(self).spec_root() matches Some(rt) && !window_ok(now, days, rt.not_after) ==> r
                == Err::<usize, Error>(Error::ValidityOutOfRange),
            r == Err::<usize, Error>(Error::ValidityOutOfRange) ==> (old(self).spec_root() matches
                Some(rt) && !window_ok(now, days, rt.not_after)),
            old(self).spec_root() matches Some(rt) ==> window_ok(now, days, rt.not_after) ==> (r
                is Ok || r == Err::<usize, Error>(Error::CryptoError)),
            r matches Ok(id) ==> {
                &&& id == old(self).spec_certs().len()
                &&& old(self).spec_root() matches Some(rt) && window_ok(now, days, rt.not_after)
                    && final(self).spec_certs().last().issuer_pem@ == rt.cert_pem@
                &&& final(self).spec_certs().len() == old(self).spec_certs().len() + 1
                &&& final(self).spec_certs().take(old(self).spec_certs().len() as int) == old(
                    self,
                ).spec_certs()
                &&& final(self).spec_certs().last().id == id
                &&& final(self).spec_certs().last().cn@ == cn@
                &&& final(self).spec_certs().last().sans == sans
                &&& final(self).spec_certs().last().not_after == now + days * 86400
                &&& final(self).spec_certs().last().cert_pem@.len() > 0
                &&& final(self).spec_root() == old(self).spec_root()
                &&& final(self).spec_revoked() == old(self).spec_revoked()
                &&& final(self).spec_artifacts() == old(self).spec_artifacts()
                &&& audit_appended(
                    old(self).spec_audit(),
                    final(self).spec_audit(),
                    now,
                    "sign-cert"@,
                    cn@,
                )
            },
    {
        let (root_cert, root_key, limit) = match &self.root {
            None => {
                return Err(Error::NoRootAnchor);
            },
            Some(rt) => (rt.cert_pem.clone(), rt.key_pem.clone(), rt.not_after),
        };
        let dsecs: u64 = (days as u64) * 86400;
        if days == 0 || now > limit || dsecs > limit - now {
            return Err(Error::ValidityOutOfRange);
        }
        let not_after: u64 = now + dsecs;
        match build_leaf_signed_by_root(&root_cert, &root_key, &cn, &sans, not_after) {
            Err(e) => Err(e),
            Ok(p) => {
                let id = self.certs.len();
                let entry = AuditEntry {
                    ts: now,
                    action: String::from_str("sign-cert"),
                    details: cn.clone(),
                };
                let ghost pre_certs = self.spec_certs();
                let ghost pre_audit = self.spec_audit();
                self.certs.push(
                    IssuedCertificate {
                        id,
                        cn,
                        sans,
                        not_after,
                        cert_pem: p.0,
                        key_pem: p.1,
                        issuer_pem: root_cert,
                    },
                );
                self.audit.push(entry);
                proof {
                    assert(self.spec_audit().take(pre_audit.len() as int) =~= pre_audit);
                    assert(self.spec_certs().take(pre_certs.len() as int) =~= pre_certs);
                    assert(self.spec_revoked() == old(self).spec_revoked());
                    assert forall|i: int|
                        0 <= i < self.spec_certs().len() implies #[trigger] self.spec_certs()[i].id
                        == i by {
                        if i < pre_certs.len() {
                            assert(self.spec_certs()[i] == pre_certs[i]);
                            assert(old(self).spec_certs()[i].id == i);
                        }
                    }
                }
                Ok(id)
            },
        }
    }

    /// Signs `message` under the scheme the tag names and records the
    /// action: a fresh keypair is generated, the detached signature is
    /// produced, the secret key is wiped, and the artifact (algorithm,
    /// public key, signature) is stored under the returned sequence
    /// number. An unsupported tag fails with `UnknownAlgorithm` before any
    /// key material is touched.
    fn sign_and_record(&mut self, tag: &String, message: &Vec<u8>, now: u64, action: String) -> (r:
        Result<usize, Error>)
        requires
            old(self).inv(),
        ensures
            final(self).inv(),
            r is Err ==> *final(self) == *old(self),
            r == Err::<usize, Error>(Error::UnknownAlgorithm) <==> algorithm_of_tag(tag@) is None,
            algorithm_of_tag(tag@) is Some ==> (r is Ok || r == Err::<usize, Error>(
                Error::CryptoError,
            )),
            r matches Ok(id) ==> {
                &&& id == old(self).spec_artifacts().len()
                &&& final(self).spec_artifacts().len() == old(self).spec_artifacts().len() + 1
                &&& final(self).spec_artifacts().take(old(self).spec_artifacts().len() as int)
                    == old(self).spec_artifacts()
                &&& algorithm_of_tag(tag@) matches Some(a) && final(self)
                    .spec_artifacts().last().algorithm == a
                &&& verifies(
                    final(self).spec_artifacts().last().algorithm,
                    final(self).spec_artifacts().last().public_key@,
                    final(self).spec_artifacts().last().signature@,
                    message@,
                )
                &&& final(self).spec_root() == old(self).spec_root()
                &&& final(self).spec_certs() == old(self).spec_certs()
                &&& final(self).spec_revoked() == old(self).spec_revoked()
                &&& audit_appended(
                    old(self).spec_audit(),
                    final(self).spec_audit(),
                    now,
                    action@,
                    tag@,
                )
            },
    {
        let alg = match parse_algorithm(tag) {
            Ok(a) => a,
            Err(e) => {
                return Err(e);
            },
        };
        let mut kp = match generate_keypair(alg) {
            Ok(k) => k,
            Err(e) => {
                return Err(e);
            },
        };
        let ghost pkv = kp.public_key@;
        let ghost skv = kp.secret_key@;
        let sig = match sign(alg, &kp.secret_key, message) {
            Ok(s) => s,
            Err(e) => {
                wipe(&mut kp.secret_key);
                return Err(e);
            },
        };
        wipe(&mut kp.secret_key);
        let id = self.artifacts.len();
        let entry = AuditEntry { ts: now, action, details: tag.clone() };
        let ghost pre_artifacts = self.spec_artifacts();
        let ghost pre_audit = self.spec_audit();
        self.artifacts.push(
            SignatureArtifact { algorithm: alg, public_key: kp.public_key, signature: sig },
        );
        self.audit.push(entry);
        proof {
            assert(self.spec_audit().take(pre_audit.len() as int) =~= pre_audit);
            assert(self.spec_artifacts().take(pre_artifacts.len() as int) =~= pre_artifacts);
            assert(self.spec_artifacts().last().public_key@ == pkv);
            assert(self.spec_revoked() == old(self).spec_revoked());
            assert(self.spec_certs() == old(self).spec_certs());
            assert forall|i: int|
                0 <= i < self.spec_certs().len() implies #[trigger] self.spec_certs()[i].id
                == i by {
                assert(old(self).spec_certs()[i].id == i);
            }
        }
        Ok(id)
    }

    /// Signs a caller-supplied message (the `sign` command's workflow) and
    /// stores the artifact; the audit trail gains one `sign` record.
    pub fn sign_message(&mut self, tag: &String, message: &Vec<u8>, now: u64) -> (r: Result<
        usize,
        Error,
    >)
        requires
            old(self).inv(),
        ensures
            final(self).inv(),
            r is Err ==> *final(self) == *old(self),
            r == Err::<usize, Error>(Error::UnknownAlgorithm) <==> algorithm_of_tag(tag@) is None,
            algorithm_of_tag(tag@) is Some ==> (r is Ok || r == Err::<usize, Error>(
                Error::CryptoError,
            )),
            r matches Ok(id) ==> {
                &&& id == old(self).spec_artifacts().len()
                &&& final(self).spec_artifacts().len() == old(self).spec_artifacts().len() + 1
                &&& final(self).spec_artifacts().take(old(self).spec_artifacts().len() as int)
                    == old(self).spec_artifacts()
                &&& algorithm_of_tag(tag@) matches Some(a) && final(self)
                    .spec_artifacts().last().algorithm == a
                &&& verifies(
                    final(self).spec_artifacts().last().algorithm,
                    final(self).spec_artifacts().last().public_key@,
                    final(self).spec_artifacts().last().signature@,
                    message@,
                )
                &&& final(self).spec_root() == old(self).spec_root()
                &&& final(self).spec_certs() == old(self).spec_certs()
                &&& final(self).spec_revoked() == old(self).spec_revoked()
                &&& audit_appended(
                    old(self).spec_audit(),
                    final(self).spec_audit(),
                    now,
                    "sign"@,
                    tag@,
                )
            },
    {
        self.sign_and_record(tag, message, now, String::from_str("sign"))
    }

    /// Signs file contents (the `signature --sign` workflow) and stores
    /// the artifact; the audit trail gains one `signature-sign` record.
    pub fn signature_sign(&mut self, tag: &String, message: &Vec<u8>, now: u64) -> (r: Result<
        usize,
        Error,
    >)
        requires
            old(self).inv(),
        ensures
            final(self).inv(),
            r is Err ==> *final(self) == *old(self),
            r == Err::<usize, Error>(Error::UnknownAlgorithm) <==> algorithm_of_tag(tag@) is None,
            algorithm_of_tag(tag@) is Some ==> (r is Ok || r == Err::<usize, Error>(
                Error::CryptoError,
            )),
            r matches Ok(id) ==> {
                &&& id == old(self).spec_artifacts().len()
                &&& final(self).spec_artifacts().len() == old(self).spec_artifacts().len() + 1
                &&& final(self).spec_artifacts().take(old(self).spec_artifacts().len() as int)
                    == old(self).spec_artifacts()
                &&& algorithm_of_tag(tag@) matches Some(a) && final(self)
                    .spec_artifacts().last().algorithm == a
                &&& verifies(
                    final(self).spec_artifacts().last().algorithm,
                    final(self).spec_artifacts().last().public_key@,
                    final(self).spec_artifacts().last().signature@,
                    message@,
                )
                &&& final(self).spec_root() == old(self).spec_root()
                &&& final(self).spec_certs() == old(self).spec_certs()
                &&& final(self).spec_revoked() == old(self).spec_revoked()
                &&& audit_appended(
                    old(self).spec_audit(),
                    final(self).spec_audit(),
                    now,
                    "signature-sign"@,
                    tag@,
                )
            },
    {
        self.sign_and_record(tag, message, now, String::from_str("signature-sign"))
    }

    /// Verifies a detached signature under the scheme the tag names. A
    /// mismatch of message, key or signature is surfaced as
    /// `ValidationFailed`; an unsupported tag as `UnknownAlgorithm`. A
    /// successful verification is recorded in the audit trail.
    pub fn verify_signature(
        &mut self,
        tag: &String,
        public_key: &Vec<u8>,
        signature: &Vec<u8>,
        message: &Vec<u8>,
        now: u64,
    ) -> (r: Result<(), Error>)
        requires
            old(self).inv(),
        ensures
            final(self).inv(),
            r is Err ==> *final(self) == *old(self),
            r == Err::<(), Error>(Error::UnknownAlgorithm) <==> algorithm_of_tag(tag@) is None,
            r is Err ==> r == Err::<(), Error>(Error::UnknownAlgorithm) || r == Err::<(), Error>(
                Error::ValidationFailed,
            ),
            algorithm_of_tag(tag@) matches Some(a) ==> (r is Ok <==> verifies(
                a,
                public_key@,
                signature@,
                message@,
            )),
            algorithm_of_tag(tag@) matches Some(a) && !verifies(
                a,
                public_key@,
                signature@,
                message@,
            ) ==> r == Err::<(), Error>(Error::ValidationFailed),
            r is Ok ==> {
                &&& final(self).spec_root() == old(self).spec_root()
                &&& final(self).spec_certs() == old(self).spec_certs()
                &&& final(self).spec_revoked() == old(self).spec_revoked()
                &&& final(self).spec_artifacts() == old(self).spec_artifacts()
                &&& audit_appended(
                    old(self).spec_audit(),
                    final(self).spec_audit(),
                    now,
                    "signature-verify"@,
                    tag@,
                )
            },
    {
        let alg = match parse_algorithm(tag) {
            Ok(a) => a,
            Err(e) => {
                return Err(e);
            },
        };
        if !verify(alg, public_key, signature, message) {
            return Err(Error::ValidationFailed);
        }
        let entry = AuditEntry {
            ts: now,
            action: String::from_str("signature-verify"),
            details: tag.clone(),
        };
        let ghost pre_audit = self.spec_audit();
        self.audit.push(entry);
        proof {
            assert(self.spec_audit().take(pre_audit.len() as int) =~= pre_audit);
            assert(self.spec_revoked() == old(self).spec_revoked());
            assert(self.spec_certs() == old(self).spec_certs());
            assert forall|i: int|
                0 <= i < self.spec_certs().len() implies #[trigger] self.spec_certs()[i].id
                == i by {
                assert(old(self).spec_certs()[i].id == i);
            }
        }
        Ok(())
    }

    /// Restores a previously created root anchor from its stored fields,
    /// as the caller read them back from the trust store's durable copy.
    /// Only a representable not-after is accepted.
    pub fn install_root(
        &mut self,
        cn: String,
        not_after: u64,
        cert_pem: String,
        key_pem: String,
    ) -> (r: Result<(), Error>)
        requires
            old(self).inv(),
        ensures
            final(self).inv(),
            r is Ok <==> not_after <= MAX_NOT_AFTER,
            r is Err ==> *final(self) == *old(self) && r == Err::<(), Error>(
                Error::MalformedInput,
            ),
            r is Ok ==> {
                &&& final(self).spec_root() matches Some(rt) && rt.cn@ == cn@ && rt.not_after
                    == not_after && rt.cert_pem@ == cert_pem@ && rt.key_pem@ == key_pem@
                &&& final(self).spec_certs() == old(self).spec_certs()
                &&& final(self).spec_revoked() == old(self).spec_revoked()
                &&& final(self).spec_audit() == old(self).spec_audit()
                &&& final(self).spec_artifacts() == old(self).spec_artifacts()
            },
    {
        if not_after > MAX_NOT_AFTER {
            return Err(Error::MalformedInput);
        }
        self.root = Some(StoredRoot { cn, not_after, cert_pem, key_pem });
        proof {
            assert(self.spec_revoked() == old(self).spec_revoked());
            assert forall|i: int, j: int|
                0 <= i < j < self.spec_revoked().len() implies self.spec_revoked()[i]
                != self.spec_revoked()[j] by {
                assert(old(self).spec_revoked()[i] != old(self).spec_revoked()[j]);
            }
            assert(self.spec_certs() == old(self).spec_certs());
            assert forall|i: int|
                0 <= i < self.spec_certs().len() implies #[trigger] self.spec_certs()[i].id
                == i by {
                assert(old(self).spec_certs()[i].id == i);
            }
        }
        Ok(())
    }

    /// Inserts one serial with set semantics and no audit record; the
    /// restore path's single step.
    fn insert_serial(&mut self, serial: String)
        requires
            old(self).inv(),
        ensures
            final(self).inv(),
            final(self).spec_revoked() == spec_revoke(old(self).spec_revoked(), serial@),
            final(self).spec_root() == old(self).spec_root(),
            final(self).spec_certs() == old(self).spec_certs(),
            final(self).spec_audit() == old(self).spec_audit(),
            final(self).spec_artifacts() == old(self).spec_artifacts(),
    {
        let present = self.is_revoked(&serial);
        if !present {
            let ghost pre = self.spec_revoked();
            let ghost s = serial@;
            self.revoked.push(serial);
            proof {
                assert(self.spec_revoked() =~= pre.push(s));
                assert forall|i: int, j: int|
                    0 <= i < j < self.spec_revoked().len() implies self.spec_revoked()[i]
                    != self.spec_revoked()[j] by {
                    assert(self.spec_revoked()[i] == pre[i]);
                    if j == pre.len() as int {
                        if pre[i] == s {
                            assert(pre.contains(s));
                        }
                    } else {
                        assert(self.spec_revoked()[j] == pre[j]);
                    }
                }
                assert forall|i: int|
                    0 <= i < self.spec_certs().len() implies #[trigger] self.spec_certs()[i].id
                    == i by {
                    assert(old(self).spec_certs()[i].id == i);
                }
            }
        }
    }

    /// Restores the revocation ledger from the serials read back from its
    /// durable copy, replaying each with set semantics, in order, without
    /// audit records: restoring is not a new trust-affecting action.
    pub fn install_revocations(&mut self, serials: Vec<String>)
        requires
            old(self).inv(),
        ensures
            final(self).inv(),
            final(self).spec_revoked() == spec_restore(
                old(self).spec_revoked(),
                serials@.map_values(|s: String| s@),
            ),
            final(self).spec_root() == old(self).spec_root(),
            final(self).spec_certs() == old(self).spec_certs(),
            final(self).spec_audit() == old(self).spec_audit(),
            final(self).spec_artifacts() == old(self).spec_artifacts(),
    {
        let ghost views = serials@.map_values(|s: String| s@);
        let ghost base = self.spec_revoked();
        let mut i: usize = 0;
        proof {
            assert(views.skip(0) =~= views);
        }
        while i < serials.len()
            invariant
                self.inv(),
                i <= serials@.len(),
                views == serials@.map_values(|s: String| s@),
                views.len() == serials@.len(),
                spec_restore(self.spec_revoked(), views.skip(i as int)) == spec_restore(
                    base,
                    views,
                ),
                self.spec_root() == old(self).spec_root(),
                self.spec_certs() == old(self).spec_certs(),
                self.spec_audit() == old(self).spec_audit(),
                self.spec_artifacts() == old(self).spec_artifacts(),
            decreases serials@.len() - i,
        {
            let s = serials[i].clone();
            let ghost pre = self.spec_revoked();
            proof {
                assert(views.skip(i as int)[0] == views[i as int]);
                assert(views[i as int] == serials@[i as int]@);
                assert(views.skip(i as int).skip(1) =~= views.skip(i as int + 1));
            }
            self.insert_serial(s);
            proof {
                assert(self.spec_revoked() == spec_revoke(pre, views[i as int]));
                assert(spec_restore(pre, views.skip(i as int)) == spec_restore(
                    spec_revoke(pre, views[i as int]),
                    views.skip(i as int + 1),
                ));
            }
            i = i + 1;
        }
        proof {
            assert(views.skip(serials@.len() as int) =~= Seq::<Seq<char>>::empty());
            assert(spec_restore(self.spec_revoked(), Seq::<Seq<char>>::empty())
                == self.spec_revoked());
        }
    }

    /// The root anchor, if one exists.
    pub fn root_anchor(&self) -> (r: Option<&StoredRoot>)
        ensures
            match r {
                Some(rt) => self.spec_root() == Some(*rt),
                None => self.spec_root() is None,
            },
    {
        self.root.as_ref()
    }

    /// How many certificates have been issued.
    pub fn cert_count(&self) -> (r: usize)
        ensures
            r == self.spec_certs().len(),
    {
        self.certs.len()
    }

    /// The issued certificate with the given sequence number.
    pub fn cert_by_id(&self, id: usize) -> (r: Option<&IssuedCertificate>)
        ensures
            id < self.spec_certs().len() ==> r == Some(&self.spec_certs()[id as int]),
            id >= self.spec_certs().len() ==> r is None,
    {
        if id < self.certs.len() {
            Some(&self.certs[id])
        } else {
            None
        }
    }

    /// The audit trail, oldest record first.
    pub fn audit_entries(&self) -> (r: &Vec<AuditEntry>)
        ensures
            r@ == self.spec_audit(),
    {
        &self.audit
    }

    /// The stored signature artifacts, oldest first.
    pub fn signature_artifacts(&self) -> (r: &Vec<SignatureArtifact>)
        ensures
            r@ == self.spec_artifacts(),
    {
        &self.artifacts
    }

    /// The revoked serials, in first-revocation order.
    pub fn revoked_serials(&self) -> (r: &Vec<String>)
        ensures
            r@.map_values(|s: String| s@) == self.spec_revoked(),
    {
        &self.revoked
    }
}

} // verus!
