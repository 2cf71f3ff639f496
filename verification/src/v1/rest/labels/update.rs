//! Update a Gmail label (`users.labels.update`).

use vstd::prelude::*;
use vstd::string::*;

use crate::coroutine::{GmailCoroutine, GmailCoroutineState, GmailYield};
use crate::text::{decimal, is_blank, push_str, str_is_blank};
use crate::v1::http::input_view;
use crate::v1::json::json_str;
use crate::v1::rest::labels::{label_color_json, label_json, law_label_json, GmailLabel};
use crate::v1::rest::labels::create::label_name_empty_message;
use crate::v1::send::{
    body_has, built_if, json_request, requested_if, resumed, GmailAuth, GmailMethod, GmailRequest,
    GmailRequestView, GmailSend, GmailSendError, GmailSendOutput, GmailSendView,
};

verus! {

/// The path of a label.
pub open spec fn label_path(user_id: Seq<char>, label: GmailLabel) -> Seq<char> {
    "users/"@ + user_id + "/labels/"@ + label.id@
}

/// The request of `users.labels.update`.
pub open spec fn label_update_request(user_id: Seq<char>, label: GmailLabel) -> GmailRequestView {
    json_request(GmailMethod::Put, label_path(user_id, label), label_json(label))
}

/// A label update carries the label field by field, as `law_label_json` states
/// of its JSON form.
pub proof fn law_label_update_body(user_id: Seq<char>, l: GmailLabel)
    ensures
        body_has(label_update_request(user_id, l), "id"@, if l.id@.len() == 0 { Seq::<Seq<char>>::empty() } else { seq![json_str(l.id@)] }),
        body_has(label_update_request(user_id, l), "name"@, if l.name@.len() == 0 { Seq::<Seq<char>>::empty() } else { seq![json_str(l.name@)] }),
        body_has(label_update_request(user_id, l), "type"@, match l.label_type { Some(t) => seq![json_str(t.name())], None => Seq::<Seq<char>>::empty() }),
        body_has(label_update_request(user_id, l), "messageListVisibility"@, match l.message_list_visibility { Some(v) => seq![json_str(v.name())], None => Seq::<Seq<char>>::empty() }),
        body_has(label_update_request(user_id, l), "labelListVisibility"@, match l.label_list_visibility { Some(v) => seq![json_str(v.name())], None => Seq::<Seq<char>>::empty() }),
        body_has(label_update_request(user_id, l), "messagesTotal"@, match l.messages_total { Some(n) => seq![decimal(n as nat)], None => Seq::<Seq<char>>::empty() }),
        body_has(label_update_request(user_id, l), "messagesUnread"@, match l.messages_unread { Some(n) => seq![decimal(n as nat)], None => Seq::<Seq<char>>::empty() }),
        body_has(label_update_request(user_id, l), "threadsTotal"@, match l.threads_total { Some(n) => seq![decimal(n as nat)], None => Seq::<Seq<char>>::empty() }),
        body_has(label_update_request(user_id, l), "threadsUnread"@, match l.threads_unread { Some(n) => seq![decimal(n as nat)], None => Seq::<Seq<char>>::empty() }),
        body_has(label_update_request(user_id, l), "color"@, match l.color { Some(c) => seq![label_color_json(c)], None => Seq::<Seq<char>>::empty() }),
{
    assert(label_update_request(user_id, l).json == Some(label_json(l)));
    law_label_json(l);
}

/// Gmail REST label update, answered with the updated label.
pub struct GmailLabelUpdate {
    send: GmailSend,
}

impl View for GmailLabelUpdate {
    type V = GmailSendView;

    closed spec fn view(&self) -> GmailSendView {
        self.send@
    }
}

impl GmailLabelUpdate {
    /// The request that `new` sends.
    pub fn request(user_id: &str, label: &GmailLabel) -> (r: Result<GmailRequest, GmailSendError>)
        ensures
            requested_if(r, !is_blank(label.name@), label_name_empty_message(), label_update_request(user_id@, *label)),
    {
        if str_is_blank(label.name.as_str()) {
            return Err(GmailSendError::InvalidRequest(String::from_str("Label name cannot be empty")));
        }
        let mut path = String::from_str("users/");
        push_str(&mut path, user_id);
        push_str(&mut path, "/labels/");
        push_str(&mut path, label.id.as_str());
        let json = label.to_json();
        Ok(GmailRequest { method: GmailMethod::Put, path, query: None, json: Some(json) })
    }

    /// Replaces label `label.id` of mailbox `user_id` with `label`. A name made
    /// only of white space is refused.
    pub fn new(auth: &GmailAuth, user_id: &str, label: &GmailLabel) -> (r: Result<Self, GmailSendError>)
        ensures
            built_if(r, auth@, !is_blank(label.name@), label_name_empty_message(), label_update_request(user_id@, *label)),
    {
        let request = match Self::request(user_id, label) {
            Ok(request) => request,
            Err(e) => return Err(e),
        };
        match GmailSend::new(auth, request) {
            Ok(send) => Ok(GmailLabelUpdate { send }),
            Err(e) => Err(e),
        }
    }
}

impl GmailCoroutine for GmailLabelUpdate {
    type Yield = GmailYield;
    type Return = Result<GmailSendOutput, GmailSendError>;

    fn resume(&mut self, arg: Option<&[u8]>) -> (r: GmailCoroutineState<
        GmailYield,
        Result<GmailSendOutput, GmailSendError>,
    >)
        ensures
            resumed(old(self)@, final(self)@, input_view(arg), r),
    {
        self.send.resume(arg)
    }
}

} // verus!
