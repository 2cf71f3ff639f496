//! Get a Gmail message attachment (`users.messages.attachments.get`).

use vstd::prelude::*;
use vstd::string::*;

use crate::coroutine::{GmailCoroutine, GmailCoroutineState, GmailYield};
use crate::text::push_str;
use crate::v1::http::input_view;
use crate::v1::send::{
    bare_request, built, resumed, GmailAuth, GmailMethod, GmailRequest, GmailRequestView,
    GmailSend, GmailSendError, GmailSendOutput, GmailSendView,
};

verus! {

/// The path of an attachment.
pub open spec fn attachment_path(user_id: Seq<char>, message_id: Seq<char>, id: Seq<char>) -> Seq<char> {
    "users/"@ + user_id + "/messages/"@ + message_id + "/attachments/"@ + id
}

/// The request of `users.messages.attachments.get`.
pub open spec fn attachment_get_request(user_id: Seq<char>, message_id: Seq<char>, id: Seq<char>) -> GmailRequestView {
    bare_request(GmailMethod::Get, attachment_path(user_id, message_id, id))
}

/// Gmail REST attachment retrieval, answered with the part body.
pub struct GmailAttachmentGet {
    send: GmailSend,
}

impl View for GmailAttachmentGet {
    type V = GmailSendView;

    closed spec fn view(&self) -> GmailSendView {
        self.send@
    }
}

impl GmailAttachmentGet {
    /// The request that `new` sends.
    pub fn request(user_id: &str, message_id: &str, id: &str) -> (r: GmailRequest)
        ensures
            r@ == attachment_get_request(user_id@, message_id@, id@),
    {
        let mut path = String::from_str("users/");
        push_str(&mut path, user_id);
        push_str(&mut path, "/messages/");
        push_str(&mut path, message_id);
        push_str(&mut path, "/attachments/");
        push_str(&mut path, id);
        GmailRequest { method: GmailMethod::Get, path, query: None, json: None }
    }

    /// Reads attachment `id` of message `message_id` in mailbox `user_id`.
    pub fn new(auth: &GmailAuth, user_id: &str, message_id: &str, id: &str) -> (r: Result<Self, GmailSendError>)
        ensures
            built(r, auth@, attachment_get_request(user_id@, message_id@, id@)),
    {
        let request = Self::request(user_id, message_id, id);
        match GmailSend::new(auth, request) {
            Ok(send) => Ok(GmailAttachmentGet { send }),
            Err(e) => Err(e),
        }
    }
}

impl GmailCoroutine for GmailAttachmentGet {
    type Yield = GmailYield;
    type Return = Result<GmailSendOutput, GmailSendError>;

    fn resume(&mut self, arg: Option<&[u8]>) -> (r: GmailCoroutineState<
        GmailYield,
        Result<GmailSendOutput, GmailSendError>,
    >)
        ensures
            resumed(old(self)@, final(self)@, input_view(arg), r),
    {
        self.send.resume(arg)
    }
}

} // verus!
