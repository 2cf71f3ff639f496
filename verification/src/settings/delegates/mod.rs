//! Gmail delegates (`users.settings.delegates`).

use vstd::prelude::*;

use crate::v1::json::{
    fields_view, json_object, json_object_of, json_str, json_string, opt_field, opt_view,
    push_field, push_opt_field, some_str, some_string,
};

verus! {

/// A delegate of a mailbox: the address that may act on it and, when
/// known, the state of its verification.
#[derive(Debug, Clone, PartialEq, Eq)]
pub struct GmailDelegate {
    pub delegate_email: String,
    pub verification_status: Option<String>,
}

/// The JSON form of a delegate: the status is left out when absent.
pub open spec fn delegate_json(d: GmailDelegate) -> Seq<char> {
    json_object(
        seq![("delegateEmail"@, json_str(d.delegate_email@))] + opt_field(
            "verificationStatus"@,
            some_str(opt_view(d.verification_status)),
        ),
    )
}

impl GmailDelegate {
    /// The JSON form of the delegate.
    pub fn to_json(&self) -> (r: String)
        ensures
            r@ == delegate_json(*self),
    {
        let mut fields: Vec<(String, String)> = Vec::new();
        push_field(&mut fields, "delegateEmail", json_string(self.delegate_email.as_str()));
        push_opt_field(&mut fields, "verificationStatus", some_string(&self.verification_status));
        assert(fields_view(fields@) =~= seq![("delegateEmail"@, json_str(self.delegate_email@))]
            + opt_field("verificationStatus"@, some_str(opt_view(self.verification_status))));
        json_object_of(&fields)
    }
}

} // verus!

pub mod create;
