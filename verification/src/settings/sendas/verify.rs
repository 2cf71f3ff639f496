//! Send a verification email for a send-as alias (`users.settings.sendAs.verify`).

use vstd::prelude::*;
use vstd::string::*;

use crate::coroutine::{GmailCoroutine, GmailCoroutineState, GmailYield};
use crate::text::push_str;
use crate::v1::http::input_view;
use crate::v1::send::{
    bare_request, built, resumed, GmailAuth, GmailMethod, GmailRequest, GmailRequestView,
    GmailSend, GmailSendError, GmailSendOutput, GmailSendView,
};

verus! {

/// The path of the `verify` method of a send-as alias.
pub open spec fn send_as_verify_path(user_id: Seq<char>, send_as_email: Seq<char>) -> Seq<char> {
    "users/"@ + user_id + "/settings/sendAs/"@ + send_as_email + "/verify"@
}

/// The request of `users.settings.sendAs.verify`.
pub open spec fn send_as_verify_request(user_id: Seq<char>, send_as_email: Seq<char>) -> GmailRequestView {
    bare_request(GmailMethod::Post, send_as_verify_path(user_id, send_as_email))
}

/// Gmail REST send-as verification, answered with no body.
pub struct GmailSendAsVerify {
    send: GmailSend,
}

impl View for GmailSendAsVerify {
    type V = GmailSendView;

    closed spec fn view(&self) -> GmailSendView {
        self.send@
    }
}

impl GmailSendAsVerify {
    /// The request that `new` sends.
    pub fn request(user_id: &str, send_as_email: &str) -> (r: GmailRequest)
        ensures
            r@ == send_as_verify_request(user_id@, send_as_email@),
    {
        let mut path = String::from_str("users/");
        push_str(&mut path, user_id);
        push_str(&mut path, "/settings/sendAs/");
        push_str(&mut path, send_as_email);
        push_str(&mut path, "/verify");
        GmailRequest { method: GmailMethod::Post, path, query: None, json: None }
    }

    /// Asks Gmail to send a verification email to send-as alias `send_as_email`
    /// of mailbox `user_id`.
    pub fn new(auth: &GmailAuth, user_id: &str, send_as_email: &str) -> (r: Result<Self, GmailSendError>)
        ensures
            built(r, auth@, send_as_verify_request(user_id@, send_as_email@)),
    {
        let request = Self::request(user_id, send_as_email);
        match GmailSend::new(auth, request) {
            Ok(send) => Ok(GmailSendAsVerify { send }),
            Err(e) => Err(e),
        }
    }
}

impl GmailCoroutine for GmailSendAsVerify {
    type Yield = GmailYield;
    type Return = Result<GmailSendOutput, GmailSendError>;

    fn resume(&mut self, arg: Option<&[u8]>) -> (r: GmailCoroutineState<
        GmailYield,
        Result<GmailSendOutput, GmailSendError>,
    >)
        ensures
            resumed(old(self)@, final(self)@, input_view(arg), r),
    {
        self.send.resume(arg)
    }
}

} // verus!
