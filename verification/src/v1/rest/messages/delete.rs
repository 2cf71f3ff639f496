//! Delete a Gmail message (`users.messages.delete`).

use vstd::prelude::*;
use vstd::string::*;

use crate::coroutine::{GmailCoroutine, GmailCoroutineState, GmailYield};
use crate::text::push_str;
use crate::v1::http::input_view;
use crate::v1::send::{
    bare_request, built, resumed, GmailAuth, GmailMethod, GmailRequest, GmailRequestView,
    GmailSend, GmailSendError, GmailSendOutput, GmailSendView,
};

verus! {

/// The path of a message.
pub open spec fn message_path(user_id: Seq<char>, id: Seq<char>) -> Seq<char> {
    "users/"@ + user_id + "/messages/"@ + id
}

/// The request of `users.messages.delete`.
pub open spec fn message_delete_request(user_id: Seq<char>, id: Seq<char>) -> GmailRequestView {
    bare_request(GmailMethod::Delete, message_path(user_id, id))
}

/// Gmail REST message permanent deletion, answered with no body.
pub struct GmailMessageDelete {
    send: GmailSend,
}

impl View for GmailMessageDelete {
    type V = GmailSendView;

    closed spec fn view(&self) -> GmailSendView {
        self.send@
    }
}

impl GmailMessageDelete {
    /// The request that `new` sends.
    pub fn request(user_id: &str, id: &str) -> (r: GmailRequest)
        ensures
            r@ == message_delete_request(user_id@, id@),
    {
        let mut path = String::from_str("users/");
        push_str(&mut path, user_id);
        push_str(&mut path, "/messages/");
        push_str(&mut path, id);
        GmailRequest { method: GmailMethod::Delete, path, query: None, json: None }
    }

    /// Permanently deletes message `id` of mailbox `user_id`.
    pub fn new(auth: &GmailAuth, user_id: &str, id: &str) -> (r: Result<Self, GmailSendError>)
        ensures
            built(r, auth@, message_delete_request(user_id@, id@)),
    {
        let request = Self::request(user_id, id);
        match GmailSend::new(auth, request) {
            Ok(send) => Ok(GmailMessageDelete { send }),
            Err(e) => Err(e),
        }
    }
}

impl GmailCoroutine for GmailMessageDelete {
    type Yield = GmailYield;
    type Return = Result<GmailSendOutput, GmailSendError>;

    fn resume(&mut self, arg: Option<&[u8]>) -> (r: GmailCoroutineState<
        GmailYield,
        Result<GmailSendOutput, GmailSendError>,
    >)
        ensures
            resumed(old(self)@, final(self)@, input_view(arg), r),
    {
        self.send.resume(arg)
    }
}

} // verus!
