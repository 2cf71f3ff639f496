//! Send a Gmail message (`users.messages.send`).

use vstd::prelude::*;
use vstd::string::*;

use crate::coroutine::{GmailCoroutine, GmailCoroutineState, GmailYield};
use crate::text::push_str;
use crate::v1::http::input_view;
use crate::v1::json::{json_opt_str, json_opt_u64, json_str, json_str_array, opt_view, strings_view};
use crate::v1::rest::messages::{
    law_message_json_members, message_json, opt_payload_json, GmailMessage,
};
use crate::v1::send::{
    body_has, built, json_request, resumed, GmailAuth, GmailMethod, GmailRequest, GmailRequestView,
    GmailSend, GmailSendError, GmailSendOutput, GmailSendView,
};

verus! {

/// The path of the `send` method of messages.
pub open spec fn message_send_path(user_id: Seq<char>) -> Seq<char> {
    "users/"@ + user_id + "/messages/send"@
}

/// The request of `users.messages.send`.
pub open spec fn message_send_request(user_id: Seq<char>, message: GmailMessage) -> GmailRequestView {
    json_request(GmailMethod::Post, message_send_path(user_id), message_json(message))
}

/// A message send carries the message field by field, its raw text included, as
/// `law_message_json_members` states of its JSON form.
pub proof fn law_message_send_body(user_id: Seq<char>, m: GmailMessage)
    ensures
        body_has(message_send_request(user_id, m), "id"@, seq![json_str(m.id@)]),
        body_has(message_send_request(user_id, m), "threadId"@, seq![json_opt_str(opt_view(m.thread_id))]),
        body_has(message_send_request(user_id, m), "labelIds"@, seq![json_str_array(strings_view(m.label_ids@))]),
        body_has(message_send_request(user_id, m), "internalDate"@, seq![json_opt_str(opt_view(m.internal_date))]),
        body_has(message_send_request(user_id, m), "snippet"@, seq![json_opt_str(opt_view(m.snippet))]),
        body_has(message_send_request(user_id, m), "payload"@, seq![opt_payload_json(m.payload)]),
        body_has(message_send_request(user_id, m), "raw"@, seq![json_opt_str(opt_view(m.raw))]),
        body_has(message_send_request(user_id, m), "sizeEstimate"@, seq![json_opt_u64(m.size_estimate)]),
        body_has(message_send_request(user_id, m), "historyId"@, seq![json_opt_str(opt_view(m.history_id))]),
{
    assert(message_send_request(user_id, m).json == Some(message_json(m)));
    law_message_json_members(m);
}

/// Gmail REST message send, answered with the id of the sent message.
pub struct GmailMessageSend {
    send: GmailSend,
}

impl View for GmailMessageSend {
    type V = GmailSendView;

    closed spec fn view(&self) -> GmailSendView {
        self.send@
    }
}

impl GmailMessageSend {
    /// The request that `new` sends.
    pub fn request(user_id: &str, message: &GmailMessage) -> (r: GmailRequest)
        ensures
            r@ == message_send_request(user_id@, *message),
    {
        let mut path = String::from_str("users/");
        push_str(&mut path, user_id);
        push_str(&mut path, "/messages/send");
        let json = message.to_json();
        GmailRequest { method: GmailMethod::Post, path, query: None, json: Some(json) }
    }

    /// Sends `message` from mailbox `user_id`.
    pub fn new(auth: &GmailAuth, user_id: &str, message: &GmailMessage) -> (r: Result<Self, GmailSendError>)
        ensures
            built(r, auth@, message_send_request(user_id@, *message)),
    {
        let request = Self::request(user_id, message);
        match GmailSend::new(auth, request) {
            Ok(send) => Ok(GmailMessageSend { send }),
            Err(e) => Err(e),
        }
    }
}

impl GmailCoroutine for GmailMessageSend {
    type Yield = GmailYield;
    type Return = Result<GmailSendOutput, GmailSendError>;

    fn resume(&mut self, arg: Option<&[u8]>) -> (r: GmailCoroutineState<
        GmailYield,
        Result<GmailSendOutput, GmailSendError>,
    >)
        ensures
            resumed(old(self)@, final(self)@, input_view(arg), r),
    {
        self.send.resume(arg)
    }
}

} // verus!
