//! Untrash a Gmail message (`users.messages.untrash`).

use vstd::prelude::*;
use vstd::string::*;

use crate::coroutine::{GmailCoroutine, GmailCoroutineState, GmailYield};
use crate::text::push_str;
use crate::v1::http::input_view;
use crate::v1::send::{
    bare_request, built, resumed, GmailAuth, GmailMethod, GmailRequest, GmailRequestView,
    GmailSend, GmailSendError, GmailSendOutput, GmailSendView,
};

verus! {

/// The path of the `untrash` method of a message.
pub open spec fn message_untrash_path(user_id: Seq<char>, id: Seq<char>) -> Seq<char> {
    "users/"@ + user_id + "/messages/"@ + id + "/untrash"@
}

/// The request of `users.messages.untrash`.
pub open spec fn message_untrash_request(user_id: Seq<char>, id: Seq<char>) -> GmailRequestView {
    bare_request(GmailMethod::Post, message_untrash_path(user_id, id))
}

/// Gmail REST message untrashing, answered with the updated message.
pub struct GmailMessageUntrash {
    send: GmailSend,
}

impl View for GmailMessageUntrash {
    type V = GmailSendView;

    closed spec fn view(&self) -> GmailSendView {
        self.send@
    }
}

impl GmailMessageUntrash {
    /// The request that `new` sends.
    pub fn request(user_id: &str, id: &str) -> (r: GmailRequest)
        ensures
            r@ == message_untrash_request(user_id@, id@),
    {
        let mut path = String::from_str("users/");
        push_str(&mut path, user_id);
        push_str(&mut path, "/messages/");
        push_str(&mut path, id);
        push_str(&mut path, "/untrash");
        GmailRequest { method: GmailMethod::Post, path, query: None, json: None }
    }

    /// Moves message `id` of mailbox `user_id` out of the trash.
    pub fn new(auth: &GmailAuth, user_id: &str, id: &str) -> (r: Result<Self, GmailSendError>)
        ensures
            built(r, auth@, message_untrash_request(user_id@, id@)),
    {
        let request = Self::request(user_id, id);
        match GmailSend::new(auth, request) {
            Ok(send) => Ok(GmailMessageUntrash { send }),
            Err(e) => Err(e),
        }
    }
}

impl GmailCoroutine for GmailMessageUntrash {
    type Yield = GmailYield;
    type Return = Result<GmailSendOutput, GmailSendError>;

    fn resume(&mut self, arg: Option<&[u8]>) -> (r: GmailCoroutineState<
        GmailYield,
        Result<GmailSendOutput, GmailSendError>,
    >)
        ensures
            resumed(old(self)@, final(self)@, input_view(arg), r),
    {
        self.send.resume(arg)
    }
}

} // verus!
