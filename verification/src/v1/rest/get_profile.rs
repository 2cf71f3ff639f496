//! Gmail user profile (`users.getProfile`).

use vstd::prelude::*;
use vstd::string::*;

use crate::coroutine::{GmailCoroutine, GmailCoroutineState, GmailYield};
use crate::text::push_str;
use crate::v1::http::input_view;
use crate::v1::send::{
    bare_request, built, resumed, GmailAuth, GmailMethod, GmailRequest, GmailRequestView,
    GmailSend, GmailSendError, GmailSendOutput, GmailSendView,
};

verus! {

/// The path of the profile of a mailbox.
pub open spec fn profile_path(user_id: Seq<char>) -> Seq<char> {
    "users/"@ + user_id + "/profile"@
}

/// The request of `users.getProfile`.
pub open spec fn profile_get_request(user_id: Seq<char>) -> GmailRequestView {
    bare_request(GmailMethod::Get, profile_path(user_id))
}

/// The profile of a mailbox.
#[derive(Debug, Clone, Default, PartialEq, Eq)]
pub struct GmailProfile {
    pub email_address: String,
    pub messages_total: Option<u64>,
    pub threads_total: Option<u64>,
    pub history_id: Option<String>,
}

/// Gmail REST profile retrieval, answered with the profile.
pub struct GmailProfileGet {
    send: GmailSend,
}

impl View for GmailProfileGet {
    type V = GmailSendView;

    closed spec fn view(&self) -> GmailSendView {
        self.send@
    }
}

impl GmailProfileGet {
    /// The request that `new` sends.
    pub fn request(user_id: &str) -> (r: GmailRequest)
        ensures
            r@ == profile_get_request(user_id@),
    {
        let mut path = String::from_str("users/");
        push_str(&mut path, user_id);
        push_str(&mut path, "/profile");
        GmailRequest { method: GmailMethod::Get, path, query: None, json: None }
    }

    /// Reads the profile of mailbox `user_id`.
    pub fn new(auth: &GmailAuth, user_id: &str) -> (r: Result<Self, GmailSendError>)
        ensures
            built(r, auth@, profile_get_request(user_id@)),
    {
        let request = Self::request(user_id);
        match GmailSend::new(auth, request) {
            Ok(send) => Ok(GmailProfileGet { send }),
            Err(e) => Err(e),
        }
    }
}

impl GmailCoroutine for GmailProfileGet {
    type Yield = GmailYield;
    type Return = Result<GmailSendOutput, GmailSendError>;

    fn resume(&mut self, arg: Option<&[u8]>) -> (r: GmailCoroutineState<
        GmailYield,
        Result<GmailSendOutput, GmailSendError>,
    >)
        ensures
            resumed(old(self)@, final(self)@, input_view(arg), r),
    {
        self.send.resume(arg)
    }
}

} // verus!
