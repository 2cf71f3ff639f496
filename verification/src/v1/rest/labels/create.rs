//! Create a Gmail label (`users.labels.create`).

use vstd::prelude::*;
use vstd::string::*;

use crate::coroutine::{GmailCoroutine, GmailCoroutineState, GmailYield};
use crate::text::{is_blank, push_str, str_is_blank};
use crate::v1::http::input_view;
use crate::v1::json::{
    fields_view, json_object, json_object_of, json_str, json_string, lemma_values_of_concat,
    push_field, values_of,
};
use crate::v1::query::lemma_pair_values;
use crate::v1::send::{
    body_has, built_if, json_request, requested_if, resumed, GmailAuth, GmailMethod, GmailRequest,
    GmailRequestView, GmailSend, GmailSendError, GmailSendOutput, GmailSendView,
};

verus! {

/// The path of the labels of a mailbox.
pub open spec fn label_create_path(user_id: Seq<char>) -> Seq<char> {
    "users/"@ + user_id + "/labels"@
}

/// The request of `users.labels.create`.
pub open spec fn label_create_request(user_id: Seq<char>, name: Seq<char>) -> GmailRequestView {
    json_request(GmailMethod::Post, label_create_path(user_id), label_create_json(name))
}

/// The message returned for a blank label name.
pub open spec fn label_name_empty_message() -> Seq<char> {
    "Label name cannot be empty"@
}

/// The body of a label creation.
pub open spec fn label_create_json(name: Seq<char>) -> Seq<char> {
    json_object(
        seq![
            ("name"@, json_str(name)),
            ("labelListVisibility"@, json_str("labelShow"@)),
            ("messageListVisibility"@, json_str("show"@)),
        ],
    )
}

proof fn lemma_label_create_json_key(name: Seq<char>, k: Seq<char>)
    ensures
        values_of(seq![("name"@, json_str(name)), ("labelListVisibility"@, json_str("labelShow"@)), ("messageListVisibility"@, json_str("show"@))], k) == (if "name"@ == k { seq![json_str(name)] } else { Seq::<Seq<char>>::empty() }) + (if "labelListVisibility"@ == k { seq![json_str("labelShow"@)] } else { Seq::<Seq<char>>::empty() }) + (if "messageListVisibility"@ == k { seq![json_str("show"@)] } else { Seq::<Seq<char>>::empty() }),
{
    let p0 = seq![("name"@, json_str(name))];
    let p1 = seq![("labelListVisibility"@, json_str("labelShow"@))];
    let p2 = seq![("messageListVisibility"@, json_str("show"@))];
    assert(seq![("name"@, json_str(name)), ("labelListVisibility"@, json_str("labelShow"@)), ("messageListVisibility"@, json_str("show"@))] =~= p0 + p1 + p2);
    lemma_values_of_concat(p0 + p1, p2, k);
    lemma_values_of_concat(p0, p1, k);
    lemma_pair_values("name"@, json_str(name), k);
    lemma_pair_values("labelListVisibility"@, json_str("labelShow"@), k);
    lemma_pair_values("messageListVisibility"@, json_str("show"@), k);
}

/// A label creation sends the name as given, shown in the label list
/// (`labelShow`) and in the message list (`show`).
pub proof fn law_label_create_json(user_id: Seq<char>, name: Seq<char>)
    ensures
        body_has(label_create_request(user_id, name), "name"@, seq![json_str(name)]),
        body_has(label_create_request(user_id, name), "labelListVisibility"@, seq![json_str("labelShow"@)]),
        body_has(label_create_request(user_id, name), "messageListVisibility"@, seq![json_str("show"@)]),
{
    assert(label_create_request(user_id, name).json == Some(label_create_json(name)));
    assert(label_create_json(name) == json_object(seq![("name"@, json_str(name)), ("labelListVisibility"@, json_str("labelShow"@)), ("messageListVisibility"@, json_str("show"@))]));
    reveal_strlit("name");
    assert("name"@ =~= seq!['n', 'a', 'm', 'e']);
    reveal_strlit("labelListVisibility");
    assert("labelListVisibility"@ =~= seq!['l', 'a', 'b', 'e', 'l', 'L', 'i', 's', 't', 'V', 'i', 's', 'i', 'b', 'i', 'l', 'i', 't', 'y']);
    reveal_strlit("messageListVisibility");
    assert("messageListVisibility"@ =~= seq!['m', 'e', 's', 's', 'a', 'g', 'e', 'L', 'i', 's', 't', 'V', 'i', 's', 'i', 'b', 'i', 'l', 'i', 't', 'y']);
    lemma_label_create_json_key(name, "name"@);
    assert(values_of(seq![("name"@, json_str(name)), ("labelListVisibility"@, json_str("labelShow"@)), ("messageListVisibility"@, json_str("show"@))], "name"@) =~= seq![json_str(name)]);
    lemma_label_create_json_key(name, "labelListVisibility"@);
    assert(values_of(seq![("name"@, json_str(name)), ("labelListVisibility"@, json_str("labelShow"@)), ("messageListVisibility"@, json_str("show"@))], "labelListVisibility"@) =~= seq![json_str("labelShow"@)]);
    lemma_label_create_json_key(name, "messageListVisibility"@);
    assert(values_of(seq![("name"@, json_str(name)), ("labelListVisibility"@, json_str("labelShow"@)), ("messageListVisibility"@, json_str("show"@))], "messageListVisibility"@) =~= seq![json_str("show"@)]);
}

/// Gmail REST label creation, answered with the created label.
pub struct GmailLabelCreate {
    send: GmailSend,
}

impl View for GmailLabelCreate {
    type V = GmailSendView;

    closed spec fn view(&self) -> GmailSendView {
        self.send@
    }
}

impl GmailLabelCreate {
    /// The request that `new` sends.
    pub fn request(user_id: &str, name: &str) -> (r: Result<GmailRequest, GmailSendError>)
        ensures
            requested_if(r, !is_blank(name@), label_name_empty_message(), label_create_request(user_id@, name@)),
    {
        if str_is_blank(name) {
            return Err(GmailSendError::InvalidRequest(String::from_str("Label name cannot be empty")));
        }
        let mut path = String::from_str("users/");
        push_str(&mut path, user_id);
        push_str(&mut path, "/labels");
        let mut fields: Vec<(String, String)> = Vec::new();
        push_field(&mut fields, "name", json_string(name));
        push_field(&mut fields, "labelListVisibility", json_string("labelShow"));
        push_field(&mut fields, "messageListVisibility", json_string("show"));
        let json = json_object_of(&fields);
        assert(fields_view(fields@) =~= seq![
            ("name"@, json_str(name@)),
            ("labelListVisibility"@, json_str("labelShow"@)),
            ("messageListVisibility"@, json_str("show"@)),
        ]);
        Ok(GmailRequest { method: GmailMethod::Post, path, query: None, json: Some(json) })
    }

    /// Creates a label named `name` in mailbox `user_id`, shown in the label
    /// list and in the message list. A name made only of white space is
    /// refused.
    pub fn new(auth: &GmailAuth, user_id: &str, name: &str) -> (r: Result<Self, GmailSendError>)
        ensures
            built_if(r, auth@, !is_blank(name@), label_name_empty_message(), label_create_request(user_id@, name@)),
    {
        let request = match Self::request(user_id, name) {
            Ok(request) => request,
            Err(e) => return Err(e),
        };
        match GmailSend::new(auth, request) {
            Ok(send) => Ok(GmailLabelCreate { send }),
            Err(e) => Err(e),
        }
    }
}

impl GmailCoroutine for GmailLabelCreate {
    type Yield = GmailYield;
    type Return = Result<GmailSendOutput, GmailSendError>;

    fn resume(&mut self, arg: Option<&[u8]>) -> (r: GmailCoroutineState<
        GmailYield,
        Result<GmailSendOutput, GmailSendError>,
    >)
        ensures
            resumed(old(self)@, final(self)@, input_view(arg), r),
    {
        self.send.resume(arg)
    }
}

} // verus!
