//! The audit-reason capability: a human-readable justification that an
//! endpoint may carry to the remote audit log, sent percent-encoded in a
//! header.

use vstd::prelude::*;

use crate::error::Error;
use crate::request::Header;
use crate::text::{
    header_value_is_valid, is_header_value, lemma_percent_encode_is_header_value, percent_encode,
    percent_encode_str,
};

verus! {

/// The greatest number of characters that an audit reason may have.
pub const AUDIT_REASON_MAX_LENGTH: usize = 512;

/// The name of the header that carries an audit reason.
pub open spec fn audit_header_name() -> Seq<char> {
    "x-audit-log-reason"@
}

/// Why an audit reason was refused.
#[derive(Debug)]
pub enum AuditLogReasonError {
    /// The reason has more characters than the remote side accepts.
    TooLarge { reason: String },
}

impl AuditLogReasonError {
    /// Hands `reason` back where it has no more than
    /// [`AUDIT_REASON_MAX_LENGTH`] characters.
    pub fn validate(reason: &str) -> (r: Result<&str, AuditLogReasonError>)
        ensures
            r is Ok <==> reason@.len() <= AUDIT_REASON_MAX_LENGTH,
            r matches Ok(s) ==> s == reason,
            r matches Err(AuditLogReasonError::TooLarge { reason: s }) ==> s@ == reason@,
    {
        if reason.unicode_len() <= AUDIT_REASON_MAX_LENGTH {
            Ok(reason)
        } else {
            let mut s = String::new();
            s.append(reason);
            Err(AuditLogReasonError::TooLarge { reason: s })
        }
    }
}

/// The audit header for `reason`: its value is `reason` percent-encoded,
/// every character but ASCII letters and digits escaped.
pub fn audit_header(reason: &str) -> (r: Result<Header, Error>)
    ensures
        r matches Ok(h) && h.name@ == audit_header_name() && h.value@ == percent_encode(reason@),
{
    let encoded = percent_encode_str(reason);
    proof {
        lemma_percent_encode_is_header_value(reason@);
    }
    if !header_value_is_valid(encoded.as_str()) {
        return Err(Error::CreatingHeader { name: encoded });
    }
    let mut name = String::new();
    name.append("x-audit-log-reason");
    Ok(Header { name, value: encoded })
}

/// An endpoint whose remote operation accepts an audit reason.
pub trait AuditLogReason<'a>: Sized {
    /// The audit reason set on the endpoint, if any.
    spec fn audit_reason(&self) -> Option<Seq<char>>;

    /// Whether `self` and `other` agree on everything but the audit reason.
    spec fn same_but_reason(&self, other: &Self) -> bool;

    /// Sets the audit reason, replacing one set before; refused where it has
    /// more than [`AUDIT_REASON_MAX_LENGTH`] characters.
    fn reason(self, reason: &'a str) -> (r: Result<Self, AuditLogReasonError>)
        ensures
            r is Ok <==> reason@.len() <= AUDIT_REASON_MAX_LENGTH,
            r matches Ok(b) ==> b.audit_reason() == Some(reason@) && self.same_but_reason(&b),
            r matches Err(AuditLogReasonError::TooLarge { reason: s }) ==> s@ == reason@,
    ;
}

} // verus!
