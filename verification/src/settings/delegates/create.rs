//! Add a delegate to a Gmail mailbox (`users.settings.delegates.create`).

use vstd::prelude::*;
use vstd::string::*;

use crate::coroutine::{GmailCoroutine, GmailCoroutineState, GmailYield};
use crate::settings::delegates::{delegate_json, GmailDelegate};
use crate::text::push_str;
use crate::v1::http::input_view;
use crate::v1::json::{
    json_object, json_str, lemma_values_of_concat, opt_field, opt_view, some_str, values_of,
};
use crate::v1::query::{lemma_opt_field_values, lemma_pair_values, opt_values};
use crate::v1::send::{
    body_has, built, json_request, resumed, GmailAuth, GmailMethod, GmailRequest, GmailRequestView,
    GmailSend, GmailSendError, GmailSendOutput, GmailSendView,
};

verus! {

/// The path of the delegates of a mailbox.
pub open spec fn delegates_path(user_id: Seq<char>) -> Seq<char> {
    "users/"@ + user_id + "/settings/delegates"@
}

/// The request of `users.settings.delegates.create`.
pub open spec fn delegate_create_request(user_id: Seq<char>, delegate: GmailDelegate) -> GmailRequestView {
    json_request(GmailMethod::Post, delegates_path(user_id), delegate_json(delegate))
}

proof fn lemma_delegate_json_key(d: GmailDelegate, k: Seq<char>)
    ensures
        values_of(seq![("delegateEmail"@, json_str(d.delegate_email@))] + opt_field("verificationStatus"@, some_str(opt_view(d.verification_status))), k) == (if "delegateEmail"@ == k { seq![json_str(d.delegate_email@)] } else { Seq::<Seq<char>>::empty() }) + (if "verificationStatus"@ == k { opt_values(some_str(opt_view(d.verification_status))) } else { Seq::<Seq<char>>::empty() }),
{
    let p0 = seq![("delegateEmail"@, json_str(d.delegate_email@))];
    let p1 = opt_field("verificationStatus"@, some_str(opt_view(d.verification_status)));
    assert(seq![("delegateEmail"@, json_str(d.delegate_email@))] + opt_field("verificationStatus"@, some_str(opt_view(d.verification_status))) =~= p0 + p1);
    lemma_values_of_concat(p0, p1, k);
    lemma_pair_values("delegateEmail"@, json_str(d.delegate_email@), k);
    lemma_opt_field_values("verificationStatus"@, some_str(opt_view(d.verification_status)), k);
}

/// A delegate creation sends the delegate's address as `delegateEmail`, and its
/// verification status as `verificationStatus` when there is one.
pub proof fn law_delegate_json(user_id: Seq<char>, d: GmailDelegate)
    ensures
        body_has(delegate_create_request(user_id, d), "delegateEmail"@, seq![json_str(d.delegate_email@)]),
        body_has(delegate_create_request(user_id, d), "verificationStatus"@, match d.verification_status { Some(s) => seq![json_str(s@)], None => Seq::<Seq<char>>::empty() }),
{
    assert(delegate_create_request(user_id, d).json == Some(delegate_json(d)));
    assert(delegate_json(d) == json_object(seq![("delegateEmail"@, json_str(d.delegate_email@))] + opt_field("verificationStatus"@, some_str(opt_view(d.verification_status)))));
    reveal_strlit("delegateEmail");
    assert("delegateEmail"@ =~= seq!['d', 'e', 'l', 'e', 'g', 'a', 't', 'e', 'E', 'm', 'a', 'i', 'l']);
    reveal_strlit("verificationStatus");
    assert("verificationStatus"@ =~= seq!['v', 'e', 'r', 'i', 'f', 'i', 'c', 'a', 't', 'i', 'o', 'n', 'S', 't', 'a', 't', 'u', 's']);
    lemma_delegate_json_key(d, "delegateEmail"@);
    assert(values_of(seq![("delegateEmail"@, json_str(d.delegate_email@))] + opt_field("verificationStatus"@, some_str(opt_view(d.verification_status))), "delegateEmail"@) =~= seq![json_str(d.delegate_email@)]);
    lemma_delegate_json_key(d, "verificationStatus"@);
    assert(values_of(seq![("delegateEmail"@, json_str(d.delegate_email@))] + opt_field("verificationStatus"@, some_str(opt_view(d.verification_status))), "verificationStatus"@) =~= match d.verification_status { Some(s) => seq![json_str(s@)], None => Seq::<Seq<char>>::empty() });
}

/// Gmail REST delegate creation, answered with the created delegate.
pub struct GmailDelegateCreate {
    send: GmailSend,
}

impl View for GmailDelegateCreate {
    type V = GmailSendView;

    closed spec fn view(&self) -> GmailSendView {
        self.send@
    }
}

impl GmailDelegateCreate {
    /// The request that `new` sends.
    pub fn request(user_id: &str, delegate: GmailDelegate) -> (r: GmailRequest)
        ensures
            r@ == delegate_create_request(user_id@, delegate),
    {
        let mut path = String::from_str("users/");
        push_str(&mut path, user_id);
        push_str(&mut path, "/settings/delegates");
        let json = delegate.to_json();
        GmailRequest { method: GmailMethod::Post, path, query: None, json: Some(json) }
    }

    /// Adds `delegate` to the delegates of mailbox `user_id`.
    pub fn new(auth: &GmailAuth, user_id: &str, delegate: GmailDelegate) -> (r: Result<Self, GmailSendError>)
        ensures
            built(r, auth@, delegate_create_request(user_id@, delegate)),
    {
        let request = Self::request(user_id, delegate);
        match GmailSend::new(auth, request) {
            Ok(send) => Ok(GmailDelegateCreate { send }),
            Err(e) => Err(e),
        }
    }
}

impl GmailCoroutine for GmailDelegateCreate {
    type Yield = GmailYield;
    type Return = Result<GmailSendOutput, GmailSendError>;

    fn resume(&mut self, arg: Option<&[u8]>) -> (r: GmailCoroutineState<
        GmailYield,
        Result<GmailSendOutput, GmailSendError>,
    >)
        ensures
            resumed(old(self)@, final(self)@, input_view(arg), r),
    {
        self.send.resume(arg)
    }
}

} // verus!
