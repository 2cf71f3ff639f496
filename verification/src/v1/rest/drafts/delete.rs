//! Delete a Gmail draft (`users.drafts.delete`).

use vstd::prelude::*;
use vstd::string::*;

use crate::coroutine::{GmailCoroutine, GmailCoroutineState, GmailYield};
use crate::text::push_str;
use crate::v1::http::input_view;
use crate::v1::send::{
    bare_request, built, resumed, GmailAuth, GmailMethod, GmailRequest, GmailRequestView,
    GmailSend, GmailSendError, GmailSendOutput, GmailSendView,
};

verus! {

/// The path of a draft.
pub open spec fn draft_path(user_id: Seq<char>, id: Seq<char>) -> Seq<char> {
    "users/"@ + user_id + "/drafts/"@ + id
}

/// The request of `users.drafts.delete`.
pub open spec fn draft_delete_request(user_id: Seq<char>, id: Seq<char>) -> GmailRequestView {
    bare_request(GmailMethod::Delete, draft_path(user_id, id))
}

/// Gmail REST draft deletion, answered with no body.
pub struct GmailDraftDelete {
    send: GmailSend,
}

impl View for GmailDraftDelete {
    type V = GmailSendView;

    closed spec fn view(&self) -> GmailSendView {
        self.send@
    }
}

impl GmailDraftDelete {
    /// The request that `new` sends.
    pub fn request(user_id: &str, id: &str) -> (r: GmailRequest)
        ensures
            r@ == draft_delete_request(user_id@, id@),
    {
        let mut path = String::from_str("users/");
        push_str(&mut path, user_id);
        push_str(&mut path, "/drafts/");
        push_str(&mut path, id);
        GmailRequest { method: GmailMethod::Delete, path, query: None, json: None }
    }

    /// Deletes draft `id` of mailbox `user_id`.
    pub fn new(auth: &GmailAuth, user_id: &str, id: &str) -> (r: Result<Self, GmailSendError>)
        ensures
            built(r, auth@, draft_delete_request(user_id@, id@)),
    {
        let request = Self::request(user_id, id);
        match GmailSend::new(auth, request) {
            Ok(send) => Ok(GmailDraftDelete { send }),
            Err(e) => Err(e),
        }
    }
}

impl GmailCoroutine for GmailDraftDelete {
    type Yield = GmailYield;
    type Return = Result<GmailSendOutput, GmailSendError>;

    fn resume(&mut self, arg: Option<&[u8]>) -> (r: GmailCoroutineState<
        GmailYield,
        Result<GmailSendOutput, GmailSendError>,
    >)
        ensures
            resumed(old(self)@, final(self)@, input_view(arg), r),
    {
        self.send.resume(arg)
    }
}

} // verus!
