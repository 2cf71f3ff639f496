//! Trash a Gmail message (`users.messages.trash`).

use vstd::prelude::*;
use vstd::string::*;

use crate::coroutine::{GmailCoroutine, GmailCoroutineState, GmailYield};
use crate::text::push_str;
use crate::v1::http::input_view;
use crate::v1::send::{
    bare_request, built, resumed, GmailAuth, GmailMethod, GmailRequest, GmailRequestView,
    GmailSend, GmailSendError, GmailSendOutput, GmailSendView,
};

verus! {

/// The path of the `trash` method of a message.
pub open spec fn message_trash_path(user_id: Seq<char>, id: Seq<char>) -> Seq<char> {
    "users/"@ + user_id + "/messages/"@ + id + "/trash"@
}

/// The request of `users.messages.trash`.
pub open spec fn message_trash_request(user_id: Seq<char>, id: Seq<char>) -> GmailRequestView {
    bare_request(GmailMethod::Post, message_trash_path(user_id, id))
}

/// Gmail REST message trashing, answered with the updated message.
pub struct GmailMessageTrash {
    send: GmailSend,
}

impl View for GmailMessageTrash {
    type V = GmailSendView;

    closed spec fn view(&self) -> GmailSendView {
        self.send@
    }
}

impl GmailMessageTrash {
    /// The request that `new` sends.
    pub fn request(user_id: &str, id: &str) -> (r: GmailRequest)
        ensures
            r@ == message_trash_request(user_id@, id@),
    {
        let mut path = String::from_str("users/");
        push_str(&mut path, user_id);
        push_str(&mut path, "/messages/");
        push_str(&mut path, id);
        push_str(&mut path, "/trash");
        GmailRequest { method: GmailMethod::Post, path, query: None, json: None }
    }

    /// Moves message `id` of mailbox `user_id` to the trash.
    pub fn new(auth: &GmailAuth, user_id: &str, id: &str) -> (r: Result<Self, GmailSendError>)
        ensures
            built(r, auth@, message_trash_request(user_id@, id@)),
    {
        let request = Self::request(user_id, id);
        match GmailSend::new(auth, request) {
            Ok(send) => Ok(GmailMessageTrash { send }),
            Err(e) => Err(e),
        }
    }
}

impl GmailCoroutine for GmailMessageTrash {
    type Yield = GmailYield;
    type Return = Result<GmailSendOutput, GmailSendError>;

    fn resume(&mut self, arg: Option<&[u8]>) -> (r: GmailCoroutineState<
        GmailYield,
        Result<GmailSendOutput, GmailSendError>,
    >)
        ensures
            resumed(old(self)@, final(self)@, input_view(arg), r),
    {
        self.send.resume(arg)
    }
}

} // verus!
