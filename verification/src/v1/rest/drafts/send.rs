//! Send a Gmail draft (`users.drafts.send`).

use vstd::prelude::*;
use vstd::string::*;

use crate::coroutine::{GmailCoroutine, GmailCoroutineState, GmailYield};
use crate::text::push_str;
use crate::v1::http::input_view;
use crate::v1::json::json_str;
use crate::v1::rest::drafts::{draft_json, law_draft_json, GmailDraft};
use crate::v1::rest::messages::message_json;
use crate::v1::send::{
    body_has, built, json_request, resumed, GmailAuth, GmailMethod, GmailRequest, GmailRequestView,
    GmailSend, GmailSendError, GmailSendOutput, GmailSendView,
};

verus! {

/// The path of the `send` method of drafts.
pub open spec fn draft_send_path(user_id: Seq<char>) -> Seq<char> {
    "users/"@ + user_id + "/drafts/send"@
}

/// The request of `users.drafts.send`.
pub open spec fn draft_send_request(user_id: Seq<char>, draft: GmailDraft) -> GmailRequestView {
    json_request(GmailMethod::Post, draft_send_path(user_id), draft_json(draft))
}

/// The body carries the draft: its id when not empty, and its message in JSON
/// form when it has one.
pub proof fn law_draft_send_body(user_id: Seq<char>, d: GmailDraft)
    ensures
        body_has(draft_send_request(user_id, d), "id"@, if d.id@.len() == 0 { Seq::<Seq<char>>::empty() } else { seq![json_str(d.id@)] }),
        body_has(draft_send_request(user_id, d), "message"@, match d.message { Some(m) => seq![message_json(m)], None => Seq::<Seq<char>>::empty() }),
{
    assert(draft_send_request(user_id, d).json == Some(draft_json(d)));
    law_draft_json(d);
}

/// Gmail REST draft send, answered with the id of the sent message.
pub struct GmailDraftSend {
    send: GmailSend,
}

impl View for GmailDraftSend {
    type V = GmailSendView;

    closed spec fn view(&self) -> GmailSendView {
        self.send@
    }
}

impl GmailDraftSend {
    /// The request that `new` sends.
    pub fn request(user_id: &str, draft: &GmailDraft) -> (r: GmailRequest)
        ensures
            r@ == draft_send_request(user_id@, *draft),
    {
        let mut path = String::from_str("users/");
        push_str(&mut path, user_id);
        push_str(&mut path, "/drafts/send");
        let json = draft.to_json();
        GmailRequest { method: GmailMethod::Post, path, query: None, json: Some(json) }
    }

    /// Sends `draft` from mailbox `user_id`.
    pub fn new(auth: &GmailAuth, user_id: &str, draft: &GmailDraft) -> (r: Result<Self, GmailSendError>)
        ensures
            built(r, auth@, draft_send_request(user_id@, *draft)),
    {
        let request = Self::request(user_id, draft);
        match GmailSend::new(auth, request) {
            Ok(send) => Ok(GmailDraftSend { send }),
            Err(e) => Err(e),
        }
    }
}

impl GmailCoroutine for GmailDraftSend {
    type Yield = GmailYield;
    type Return = Result<GmailSendOutput, GmailSendError>;

    fn resume(&mut self, arg: Option<&[u8]>) -> (r: GmailCoroutineState<
        GmailYield,
        Result<GmailSendOutput, GmailSendError>,
    >)
        ensures
            resumed(old(self)@, final(self)@, input_view(arg), r),
    {
        self.send.resume(arg)
    }
}

} // verus!
