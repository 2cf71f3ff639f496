//! List the Gmail labels (`users.labels.list`).

use vstd::prelude::*;
use vstd::string::*;

use crate::coroutine::{GmailCoroutine, GmailCoroutineState, GmailYield};
use crate::text::push_str;
use crate::v1::http::input_view;
use crate::v1::send::{
    bare_request, built, resumed, GmailAuth, GmailMethod, GmailRequest, GmailRequestView,
    GmailSend, GmailSendError, GmailSendOutput, GmailSendView,
};

verus! {

/// The path of the labels of a mailbox.
pub open spec fn labels_path(user_id: Seq<char>) -> Seq<char> {
    "users/"@ + user_id + "/labels"@
}

/// The request of `users.labels.list`.
pub open spec fn labels_list_request(user_id: Seq<char>) -> GmailRequestView {
    bare_request(GmailMethod::Get, labels_path(user_id))
}

/// Gmail REST label listing, answered with every label of the mailbox.
pub struct GmailLabelsList {
    send: GmailSend,
}

impl View for GmailLabelsList {
    type V = GmailSendView;

    closed spec fn view(&self) -> GmailSendView {
        self.send@
    }
}

impl GmailLabelsList {
    /// The request that `new` sends.
    pub fn request(user_id: &str) -> (r: GmailRequest)
        ensures
            r@ == labels_list_request(user_id@),
    {
        let mut path = String::from_str("users/");
        push_str(&mut path, user_id);
        push_str(&mut path, "/labels");
        GmailRequest { method: GmailMethod::Get, path, query: None, json: None }
    }

    /// Lists the labels of mailbox `user_id`.
    pub fn new(auth: &GmailAuth, user_id: &str) -> (r: Result<Self, GmailSendError>)
        ensures
            built(r, auth@, labels_list_request(user_id@)),
    {
        let request = Self::request(user_id);
        match GmailSend::new(auth, request) {
            Ok(send) => Ok(GmailLabelsList { send }),
            Err(e) => Err(e),
        }
    }
}

impl GmailCoroutine for GmailLabelsList {
    type Yield = GmailYield;
    type Return = Result<GmailSendOutput, GmailSendError>;

    fn resume(&mut self, arg: Option<&[u8]>) -> (r: GmailCoroutineState<
        GmailYield,
        Result<GmailSendOutput, GmailSendError>,
    >)
        ensures
            resumed(old(self)@, final(self)@, input_view(arg), r),
    {
        self.send.resume(arg)
    }
}

} // verus!
