//! Delete Gmail messages in bulk (`users.messages.batchDelete`).

use vstd::prelude::*;
use vstd::string::*;

use crate::coroutine::{GmailCoroutine, GmailCoroutineState, GmailYield};
use crate::text::push_str;
use crate::v1::http::input_view;
use crate::v1::json::{
    fields_view, json_object, json_object_of, json_str_array, json_string_array, push_field,
    strings_view, values_of,
};
use crate::v1::query::lemma_pair_values;
use crate::v1::send::{
    body_has, built, json_request, resumed, GmailAuth, GmailMethod, GmailRequest, GmailRequestView,
    GmailSend, GmailSendError, GmailSendOutput, GmailSendView,
};

verus! {

/// The path of the `batchDelete` method of messages.
pub open spec fn batch_delete_path(user_id: Seq<char>) -> Seq<char> {
    "users/"@ + user_id + "/messages/batchDelete"@
}

/// The request of `users.messages.batchDelete`.
pub open spec fn batch_delete_request(user_id: Seq<char>, ids: Seq<Seq<char>>) -> GmailRequestView {
    json_request(GmailMethod::Post, batch_delete_path(user_id), batch_delete_json(ids))
}

/// The body of a `batchDelete` request.
pub open spec fn batch_delete_json(ids: Seq<Seq<char>>) -> Seq<char> {
    json_object(seq![("ids"@, json_str_array(ids))])
}

proof fn lemma_batch_delete_json_key(ids: Seq<Seq<char>>, k: Seq<char>)
    ensures
        values_of(seq![("ids"@, json_str_array(ids))], k) == (if "ids"@ == k { seq![json_str_array(ids)] } else { Seq::<Seq<char>>::empty() }),
{
    let p0 = seq![("ids"@, json_str_array(ids))];
    assert(seq![("ids"@, json_str_array(ids))] =~= p0);

    lemma_pair_values("ids"@, json_str_array(ids), k);
}

/// A batch deletion sends the message ids as `ids`, a JSON array in the given
/// order.
pub proof fn law_batch_delete_json(user_id: Seq<char>, ids: Seq<Seq<char>>)
    ensures
        body_has(batch_delete_request(user_id, ids), "ids"@, seq![json_str_array(ids)]),
{
    assert(batch_delete_request(user_id, ids).json == Some(batch_delete_json(ids)));
    assert(batch_delete_json(ids) == json_object(seq![("ids"@, json_str_array(ids))]));
    reveal_strlit("ids");
    assert("ids"@ =~= seq!['i', 'd', 's']);
    lemma_batch_delete_json_key(ids, "ids"@);
    assert(values_of(seq![("ids"@, json_str_array(ids))], "ids"@) =~= seq![json_str_array(ids)]);
}

/// Gmail REST batch message deletion, answered with no body.
pub struct GmailMessageBatchDelete {
    send: GmailSend,
}

impl View for GmailMessageBatchDelete {
    type V = GmailSendView;

    closed spec fn view(&self) -> GmailSendView {
        self.send@
    }
}

impl GmailMessageBatchDelete {
    /// The request that `new` sends.
    pub fn request(user_id: &str, ids: &[String]) -> (r: GmailRequest)
        ensures
            r@ == batch_delete_request(user_id@, strings_view(ids@)),
    {
        let mut path = String::from_str("users/");
        push_str(&mut path, user_id);
        push_str(&mut path, "/messages/batchDelete");
        let mut fields: Vec<(String, String)> = Vec::new();
        push_field(&mut fields, "ids", json_string_array(ids));
        let json = json_object_of(&fields);
        assert(fields_view(fields@) =~= seq![("ids"@, json_str_array(strings_view(ids@)))]);
        GmailRequest { method: GmailMethod::Post, path, query: None, json: Some(json) }
    }

    /// Permanently deletes messages `ids` of mailbox `user_id`.
    pub fn new(auth: &GmailAuth, user_id: &str, ids: &[String]) -> (r: Result<Self, GmailSendError>)
        ensures
            built(r, auth@, batch_delete_request(user_id@, strings_view(ids@))),
    {
        let request = Self::request(user_id, ids);
        match GmailSend::new(auth, request) {
            Ok(send) => Ok(GmailMessageBatchDelete { send }),
            Err(e) => Err(e),
        }
    }
}

impl GmailCoroutine for GmailMessageBatchDelete {
    type Yield = GmailYield;
    type Return = Result<GmailSendOutput, GmailSendError>;

    fn resume(&mut self, arg: Option<&[u8]>) -> (r: GmailCoroutineState<
        GmailYield,
        Result<GmailSendOutput, GmailSendError>,
    >)
        ensures
            resumed(old(self)@, final(self)@, input_view(arg), r),
    {
        self.send.resume(arg)
    }
}

} // verus!
