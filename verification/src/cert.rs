//! Time-window validation of DER-encoded certificate chains.
//!
//! Timestamps are UTC instants measured in whole seconds since the Unix
//! epoch; a policy of `max_expiration` days is the corresponding number of
//! 86400-second days.

use vstd::prelude::*;

use crate::error::MonitorError;

verus! {

/// The validity window of a decoded certificate: the UTC instants (seconds
/// since the Unix epoch) before and after which it must not be used.
#[derive(Debug, Clone, Copy, PartialEq, Eq, Structural)]
pub struct Window {
    pub not_before: i64,
    pub not_after: i64,
}

/// Whether DER decoding of these bytes yields a certificate.
pub uninterp spec fn der_decodes(der: Seq<u8>) -> bool;

/// The `not_before` instant of the certificate decoded from these bytes
/// (meaningful only where `der_decodes` holds).
pub uninterp spec fn der_not_before(der: Seq<u8>) -> int;

/// The `not_after` instant of the certificate decoded from these bytes
/// (meaningful only where `der_decodes` holds).
pub uninterp spec fn der_not_after(der: Seq<u8>) -> int;

/// Relies on `x509_certificate::X509Certificate::from_der` (a pure parse of
/// the DER bytes) and on its accessors `validity_not_before` and
/// `validity_not_after`, truncated to whole seconds by
/// `chrono::DateTime::timestamp`: the outcome and both instants are
/// functions of the bytes alone.
#[verifier::external_body]
fn decode_window(der: &Vec<u8>) -> (r: Result<Window, MonitorError>)
    ensures
        r is Ok <==> der_decodes(der@),
        r matches Ok(w) ==> w.not_before == der_not_before(der@) && w.not_after == der_not_after(
            der@,
        ),
        r matches Err(e) ==> e is Certificate,
{
    match x509_certificate::X509Certificate::from_der(der.as_slice()) {
        Ok(cert) => Ok(
            Window {
                not_before: cert.validity_not_before().timestamp(),
                not_after: cert.validity_not_after().timestamp(),
            },
        ),
        Err(err) => Err(MonitorError::Certificate(err.to_string())),
    }
}

/// The latest acceptable `not_after` bound: the evaluation instant pushed
/// forward by the policy's minimum number of remaining days, each of 86400
/// seconds.
pub open spec fn required_expiry(now: int, max_expiration: int) -> int {
    now + max_expiration * 86400
}

/// The instant `now` lies inside the window's absolute validity bounds.
pub open spec fn window_in_bounds(now: int, w: Window) -> bool {
    w.not_before <= now && now <= w.not_after
}

/// The window satisfies the policy: `now` is in bounds and strictly more
/// than `max_expiration` days remain before `not_after`.
pub open spec fn window_meets_policy(now: int, max_expiration: int, w: Window) -> bool {
    window_in_bounds(now, w) && required_expiry(now, max_expiration) < w.not_after
}

/// The certificate decoded from these bytes has `now` inside its absolute
/// validity bounds.
pub open spec fn cert_in_bounds(now: int, der: Seq<u8>) -> bool {
    der_not_before(der) <= now && now <= der_not_after(der)
}

/// The certificate decoded from these bytes satisfies the policy window.
pub open spec fn cert_meets_policy(now: int, max_expiration: int, der: Seq<u8>) -> bool {
    cert_in_bounds(now, der) && required_expiry(now, max_expiration) < der_not_after(der)
}

/// The certificate decoded from these bytes passes the hard check: it
/// decodes and `now` is inside its absolute validity bounds.
pub open spec fn cert_hard_ok(now: int, der: Seq<u8>) -> bool {
    der_decodes(der) && cert_in_bounds(now, der)
}

/// Every certificate of the chain decodes and has `now` inside its
/// absolute validity bounds.
pub open spec fn chain_in_bounds(now: int, chain: Seq<Seq<u8>>) -> bool {
    forall|i: int| 0 <= i < chain.len() ==> cert_hard_ok(now, #[trigger] chain[i])
}

/// The error reported for a certificate that fails the hard check: always
/// a certificate error, with the exact message pinned for each
/// out-of-bounds direction of a certificate that does decode.
pub open spec fn hard_failure_error(now: int, der: Seq<u8>, e: MonitorError) -> bool {
    &&& e is Certificate
    &&& (der_decodes(der) && now < der_not_before(der)) ==> (e matches MonitorError::Certificate(m)
        && m@ == "Certificate is before"@)
    &&& (der_decodes(der) && der_not_before(der) <= now && now > der_not_after(der)) ==> (
    e matches MonitorError::Certificate(m) && m@ == "Certificate is after"@)
}

/// Every certificate of the chain satisfies the policy window.
pub open spec fn chain_meets_policy(now: int, max_expiration: int, chain: Seq<Seq<u8>>) -> bool {
    forall|i: int| 0 <= i < chain.len() ==> cert_meets_policy(now, max_expiration, #[trigger] chain[i])
}

/// Validates certificate chains against a fixed evaluation instant `now`
/// and a policy of at least `max_expiration` remaining days.
pub struct Validator {
    pub max_expiration: u64,
    pub now: i64,
}

impl Validator {
    /// A validator that evaluates every certificate of a run against the
    /// single instant `now` and the policy `max_expiration` (days).
    pub fn new(now: i64, max_expiration: u64) -> (v: Validator)
        ensures
            v.now == now,
            v.max_expiration == max_expiration,
    {
        Validator { max_expiration, now }
    }

    /// Applies the temporal policy to one decoded validity window.
    ///
    /// Out-of-bounds instants are hard errors; a window that is within
    /// bounds but leaves at most `max_expiration` days of validity is the
    /// soft miss `Ok(false)`.
    pub fn validate_window(&self, w: &Window) -> (r: Result<bool, MonitorError>)
        ensures
            r is Ok <==> window_in_bounds(self.now as int, *w),
            r matches Ok(b) ==> (b <==> window_meets_policy(
                self.now as int,
                self.max_expiration as int,
                *w,
            )),
            self.now < w.not_before ==> (r matches Err(MonitorError::Certificate(m)) && m@
                == "Certificate is before"@),
            w.not_before <= self.now && self.now > w.not_after ==> (r matches Err(
                MonitorError::Certificate(m),
            ) && m@ == "Certificate is after"@),
    {
        if self.now < w.not_before {
            Err(MonitorError::Certificate("Certificate is before".to_owned()))
        } else if self.now > w.not_after {
            Err(MonitorError::Certificate("Certificate is after".to_owned()))
        } else {
            let required: i128 = (self.now as i128) + (self.max_expiration as i128) * 86400;
            if required >= (w.not_after as i128) {
                Ok(false)
            } else {
                Ok(true)
            }
        }
    }

    /// Decodes one DER-encoded certificate and applies the temporal policy
    /// to its validity window.
    pub fn validate_certificate(&self, certificate_blob: &Vec<u8>) -> (r: Result<
        bool,
        MonitorError,
    >)
        ensures
            r is Ok <==> der_decodes(certificate_blob@) && cert_in_bounds(
                self.now as int,
                certificate_blob@,
            ),
            r matches Ok(b) ==> (b <==> cert_meets_policy(
                self.now as int,
                self.max_expiration as int,
                certificate_blob@,
            )),
            r matches Err(e) ==> e is Certificate,
            der_decodes(certificate_blob@) && self.now < der_not_before(certificate_blob@) ==> (
            r matches Err(MonitorError::Certificate(m)) && m@ == "Certificate is before"@),
            der_decodes(certificate_blob@) && der_not_before(certificate_blob@) <= self.now
                && self.now > der_not_after(certificate_blob@) ==> (r matches Err(
                MonitorError::Certificate(m),
            ) && m@ == "Certificate is after"@),
    {
        match decode_window(certificate_blob) {
            Ok(w) => self.validate_window(&w),
            Err(e) => Err(e),
        }
    }

    /// Validates a whole chain: the chain must hold at least two
    /// certificates, every certificate must decode and be inside its
    /// absolute bounds (else a hard error), and the chain passes only if
    /// every certificate also satisfies the policy window.
    pub fn validate_certificates(&self, certificate_blobs: &Vec<Vec<u8>>) -> (r: Result<
        bool,
        MonitorError,
    >)
        ensures
            r is Ok <==> certificate_blobs@.len() >= 2 && chain_in_bounds(
                self.now as int,
                certificate_blobs.deep_view(),
            ),
            r matches Ok(b) ==> (b <==> chain_meets_policy(
                self.now as int,
                self.max_expiration as int,
                certificate_blobs.deep_view(),
            )),
            r matches Err(e) ==> e is Certificate,
            certificate_blobs@.len() < 2 ==> (r matches Err(MonitorError::Certificate(m)) && m@
                == "No certificates in chain"@),
            certificate_blobs@.len() >= 2 && r is Err ==> (r matches Err(e) && exists|i: int|
                0 <= i < certificate_blobs.deep_view().len() && !cert_hard_ok(
                    self.now as int,
                    #[trigger] certificate_blobs.deep_view()[i],
                ) && (forall|j: int|
                    0 <= j < i ==> cert_hard_ok(
                        self.now as int,
                        #[trigger] certificate_blobs.deep_view()[j],
                    )) && hard_failure_error(self.now as int, certificate_blobs.deep_view()[i], e)),
    {
        let ghost chain: Seq<Seq<u8>> = certificate_blobs.deep_view();
        if certificate_blobs.len() < 2 {
            return Err(MonitorError::Certificate("No certificates in chain".to_owned()));
        }
        let mut result: bool = true;
        let mut i: usize = 0;
        while i < certificate_blobs.len()
            invariant
                0 <= i <= certificate_blobs.len(),
                chain == certificate_blobs.deep_view(),
                certificate_blobs@.len() >= 2,
                forall|j: int|
                    0 <= j < i ==> der_decodes(#[trigger] chain[j]) && cert_in_bounds(
                        self.now as int,
                        chain[j],
                    ),
                result <==> forall|j: int|
                    0 <= j < i ==> cert_meets_policy(
                        self.now as int,
                        self.max_expiration as int,
                        #[trigger] chain[j],
                    ),
            decreases certificate_blobs.len() - i,
        {
            proof {
                assert(chain[i as int] =~= certificate_blobs@[i as int]@);
            }
            let valid = match self.validate_certificate(&certificate_blobs[i]) {
                Ok(b) => b,
                Err(e) => {
                    proof {
                        assert(!cert_hard_ok(self.now as int, chain[i as int]) && (forall|j: int|
                            0 <= j < i ==> cert_hard_ok(self.now as int, #[trigger] chain[j]))
                            && hard_failure_error(self.now as int, chain[i as int], e));
                    }
                    return Err(e);
                },
            };
            result = result && valid;
            i += 1;
        }
        Ok(result)
    }
}

/// Law: a chain of at least two certificates, every one of which the
/// single-certificate check would pass outright (it decodes, is inside its
/// absolute bounds, and satisfies the policy window), satisfies the
/// chain-level success condition with a fully-valid result.
pub proof fn lemma_chain_all_pass(now: int, max_expiration: int, chain: Seq<Seq<u8>>)
    requires
        chain.len() >= 2,
        forall|i: int|
            0 <= i < chain.len() ==> der_decodes(#[trigger] chain[i]) && cert_meets_policy(
                now,
                max_expiration,
                chain[i],
            ),
    ensures
        chain_in_bounds(now, chain),
        chain_meets_policy(now, max_expiration, chain),
{
}

/// Law: a chain of at least two certificates in which every certificate
/// decodes and is inside its absolute bounds, but at least one misses the
/// policy window (a soft miss), satisfies the chain-level success
/// condition with a `false` result: the miss is not promoted to an error.
pub proof fn lemma_chain_soft_miss(now: int, max_expiration: int, chain: Seq<Seq<u8>>, i: int)
    requires
        chain.len() >= 2,
        chain_in_bounds(now, chain),
        0 <= i < chain.len(),
        !cert_meets_policy(now, max_expiration, chain[i]),
    ensures
        !chain_meets_policy(now, max_expiration, chain),
{
}

} // verus!
