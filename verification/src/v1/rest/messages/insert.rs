//! Insert a Gmail message (`users.messages.insert`).

use vstd::prelude::*;
use vstd::string::*;

use crate::coroutine::{GmailCoroutine, GmailCoroutineState, GmailYield};
use crate::text::push_str;
use crate::v1::http::input_view;
use crate::v1::json::{
    fields_view, json_object, json_object_of, json_str, json_str_array, json_string,
    json_string_array, lemma_values_of_concat, opt_field, push_field, push_opt_field, strings_view,
    values_of,
};
use crate::v1::query::{lemma_opt_field_values, lemma_pair_values, opt_values};
use crate::v1::rest::messages::{base64_url_encoded, encode_raw};
use crate::v1::send::{
    body_has, built, json_request, resumed, GmailAuth, GmailMethod, GmailRequest, GmailRequestView,
    GmailSend, GmailSendError, GmailSendOutput, GmailSendView,
};

verus! {

/// The path of the messages of a mailbox.
pub open spec fn message_insert_path(user_id: Seq<char>) -> Seq<char> {
    "users/"@ + user_id + "/messages"@
}

/// The request of `users.messages.insert`.
pub open spec fn message_insert_request(user_id: Seq<char>, rfc5322: Seq<u8>, label_ids: Seq<Seq<char>>) -> GmailRequestView {
    json_request(GmailMethod::Post, message_insert_path(user_id), message_insert_json(rfc5322, label_ids))
}

/// The body of an insertion: the message in `raw`, then `labelIds`
/// unless there is no label.
pub open spec fn message_insert_json(rfc5322: Seq<u8>, label_ids: Seq<Seq<char>>) -> Seq<char> {
    json_object(
        seq![("raw"@, json_str(base64_url_encoded(rfc5322)))] + opt_field(
            "labelIds"@,
            if label_ids.len() == 0 {
                None
            } else {
                Some(json_str_array(label_ids))
            },
        ),
    )
}

proof fn lemma_message_insert_json_key(rfc5322: Seq<u8>, label_ids: Seq<Seq<char>>, k: Seq<char>)
    ensures
        values_of(seq![("raw"@, json_str(base64_url_encoded(rfc5322)))] + opt_field("labelIds"@, if label_ids.len() == 0 { None } else { Some(json_str_array(label_ids)) }), k) == (if "raw"@ == k { seq![json_str(base64_url_encoded(rfc5322))] } else { Seq::<Seq<char>>::empty() }) + (if "labelIds"@ == k { opt_values(if label_ids.len() == 0 { None } else { Some(json_str_array(label_ids)) }) } else { Seq::<Seq<char>>::empty() }),
{
    let p0 = seq![("raw"@, json_str(base64_url_encoded(rfc5322)))];
    let p1 = opt_field("labelIds"@, if label_ids.len() == 0 { None } else { Some(json_str_array(label_ids)) });
    assert(seq![("raw"@, json_str(base64_url_encoded(rfc5322)))] + opt_field("labelIds"@, if label_ids.len() == 0 { None } else { Some(json_str_array(label_ids)) }) =~= p0 + p1);
    lemma_values_of_concat(p0, p1, k);
    lemma_pair_values("raw"@, json_str(base64_url_encoded(rfc5322)), k);
    lemma_opt_field_values("labelIds"@, if label_ids.len() == 0 { None } else { Some(json_str_array(label_ids)) }, k);
}

/// An insertion sends the message bytes base64url-encoded as `raw`, and the
/// label ids as `labelIds` when there are any.
pub proof fn law_message_insert_json(user_id: Seq<char>, rfc5322: Seq<u8>, label_ids: Seq<Seq<char>>)
    ensures
        body_has(message_insert_request(user_id, rfc5322, label_ids), "raw"@, seq![json_str(base64_url_encoded(rfc5322))]),
        body_has(message_insert_request(user_id, rfc5322, label_ids), "labelIds"@, if label_ids.len() == 0 { Seq::<Seq<char>>::empty() } else { seq![json_str_array(label_ids)] }),
{
    assert(message_insert_request(user_id, rfc5322, label_ids).json == Some(message_insert_json(rfc5322, label_ids)));
    assert(message_insert_json(rfc5322, label_ids) == json_object(seq![("raw"@, json_str(base64_url_encoded(rfc5322)))] + opt_field("labelIds"@, if label_ids.len() == 0 { None } else { Some(json_str_array(label_ids)) })));
    reveal_strlit("raw");
    assert("raw"@ =~= seq!['r', 'a', 'w']);
    reveal_strlit("labelIds");
    assert("labelIds"@ =~= seq!['l', 'a', 'b', 'e', 'l', 'I', 'd', 's']);
    lemma_message_insert_json_key(rfc5322, label_ids, "raw"@);
    assert(values_of(seq![("raw"@, json_str(base64_url_encoded(rfc5322)))] + opt_field("labelIds"@, if label_ids.len() == 0 { None } else { Some(json_str_array(label_ids)) }), "raw"@) =~= seq![json_str(base64_url_encoded(rfc5322))]);
    lemma_message_insert_json_key(rfc5322, label_ids, "labelIds"@);
    assert(values_of(seq![("raw"@, json_str(base64_url_encoded(rfc5322)))] + opt_field("labelIds"@, if label_ids.len() == 0 { None } else { Some(json_str_array(label_ids)) }), "labelIds"@) =~= if label_ids.len() == 0 { Seq::<Seq<char>>::empty() } else { seq![json_str_array(label_ids)] });
}

/// Gmail REST message insertion, answered with the inserted message.
pub struct GmailMessageInsert {
    send: GmailSend,
}

impl View for GmailMessageInsert {
    type V = GmailSendView;

    closed spec fn view(&self) -> GmailSendView {
        self.send@
    }
}

impl GmailMessageInsert {
    /// The request that `new` sends.
    pub fn request(user_id: &str, rfc5322: &[u8], label_ids: &[String]) -> (r: GmailRequest)
        requires
            rfc5322@.len() <= usize::MAX / 2,
        ensures
            r@ == message_insert_request(user_id@, rfc5322@, strings_view(label_ids@)),
    {
        let mut path = String::from_str("users/");
        push_str(&mut path, user_id);
        push_str(&mut path, "/messages");
        let raw = encode_raw(rfc5322);
        let mut fields: Vec<(String, String)> = Vec::new();
        push_field(&mut fields, "raw", json_string(raw.as_str()));
        let labels = if label_ids.len() == 0 {
            None
        } else {
            Some(json_string_array(label_ids))
        };
        push_opt_field(&mut fields, "labelIds", labels);
        let json = json_object_of(&fields);
        assert(fields_view(fields@) =~= seq![("raw"@, json_str(base64_url_encoded(rfc5322@)))] + opt_field(
            "labelIds"@,
            if label_ids@.len() == 0 {
                None
            } else {
                Some(json_str_array(strings_view(label_ids@)))
            },
        ));
        GmailRequest { method: GmailMethod::Post, path, query: None, json: Some(json) }
    }

    /// Inserts the RFC 5322 message `rfc5322` into mailbox `user_id`, with the
    /// labels `label_ids`.
    pub fn new(auth: &GmailAuth, user_id: &str, rfc5322: &[u8], label_ids: &[String]) -> (r: Result<Self, GmailSendError>)
        requires
            rfc5322@.len() <= usize::MAX / 2,
        ensures
            built(r, auth@, message_insert_request(user_id@, rfc5322@, strings_view(label_ids@))),
    {
        let request = Self::request(user_id, rfc5322, label_ids);
        match GmailSend::new(auth, request) {
            Ok(send) => Ok(GmailMessageInsert { send }),
            Err(e) => Err(e),
        }
    }
}

impl GmailCoroutine for GmailMessageInsert {
    type Yield = GmailYield;
    type Return = Result<GmailSendOutput, GmailSendError>;

    fn resume(&mut self, arg: Option<&[u8]>) -> (r: GmailCoroutineState<
        GmailYield,
        Result<GmailSendOutput, GmailSendError>,
    >)
        ensures
            resumed(old(self)@, final(self)@, input_view(arg), r),
    {
        self.send.resume(arg)
    }
}

} // verus!
