//! Update a Gmail draft (`users.drafts.update`).

use vstd::prelude::*;
use vstd::string::*;

use crate::coroutine::{GmailCoroutine, GmailCoroutineState, GmailYield};
use crate::text::push_str;
use crate::v1::http::input_view;
use crate::v1::json::json_str;
use crate::v1::rest::drafts::{draft_json, law_draft_json, GmailDraft};
use crate::v1::rest::messages::message_json;
use crate::v1::send::{
    body_has, built, json_request, resumed, GmailAuth, GmailMethod, GmailRequest, GmailRequestView,
    GmailSend, GmailSendError, GmailSendOutput, GmailSendView,
};

verus! {

/// The path of a draft being updated.
pub open spec fn draft_update_path(user_id: Seq<char>, draft: GmailDraft) -> Seq<char> {
    "users/"@ + user_id + "/drafts/"@ + draft.id@
}

/// The request of `users.drafts.update`.
pub open spec fn draft_update_request(user_id: Seq<char>, draft: GmailDraft) -> GmailRequestView {
    json_request(GmailMethod::Put, draft_update_path(user_id, draft), draft_json(draft))
}

/// The body carries the draft: its id when not empty, and its message in JSON
/// form when it has one.
pub proof fn law_draft_update_body(user_id: Seq<char>, d: GmailDraft)
    ensures
        body_has(draft_update_request(user_id, d), "id"@, if d.id@.len() == 0 { Seq::<Seq<char>>::empty() } else { seq![json_str(d.id@)] }),
        body_has(draft_update_request(user_id, d), "message"@, match d.message { Some(m) => seq![message_json(m)], None => Seq::<Seq<char>>::empty() }),
{
    assert(draft_update_request(user_id, d).json == Some(draft_json(d)));
    law_draft_json(d);
}

/// Gmail REST draft update, answered with the updated draft.
pub struct GmailDraftUpdate {
    send: GmailSend,
}

impl View for GmailDraftUpdate {
    type V = GmailSendView;

    closed spec fn view(&self) -> GmailSendView {
        self.send@
    }
}

impl GmailDraftUpdate {
    /// The request that `new` sends.
    pub fn request(user_id: &str, draft: &GmailDraft) -> (r: GmailRequest)
        ensures
            r@ == draft_update_request(user_id@, *draft),
    {
        let mut path = String::from_str("users/");
        push_str(&mut path, user_id);
        push_str(&mut path, "/drafts/");
        push_str(&mut path, draft.id.as_str());
        let json = draft.to_json();
        GmailRequest { method: GmailMethod::Put, path, query: None, json: Some(json) }
    }

    /// Replaces draft `draft.id` of mailbox `user_id` with `draft`.
    pub fn new(auth: &GmailAuth, user_id: &str, draft: &GmailDraft) -> (r: Result<Self, GmailSendError>)
        ensures
            built(r, auth@, draft_update_request(user_id@, *draft)),
    {
        let request = Self::request(user_id, draft);
        match GmailSend::new(auth, request) {
            Ok(send) => Ok(GmailDraftUpdate { send }),
            Err(e) => Err(e),
        }
    }
}

impl GmailCoroutine for GmailDraftUpdate {
    type Yield = GmailYield;
    type Return = Result<GmailSendOutput, GmailSendError>;

    fn resume(&mut self, arg: Option<&[u8]>) -> (r: GmailCoroutineState<
        GmailYield,
        Result<GmailSendOutput, GmailSendError>,
    >)
        ensures
            resumed(old(self)@, final(self)@, input_view(arg), r),
    {
        self.send.resume(arg)
    }
}

} // verus!
