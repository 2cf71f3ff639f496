//! Batch-modify Gmail message labels (`users.messages.batchModify`).

use vstd::prelude::*;
use vstd::string::*;

use crate::coroutine::{GmailCoroutine, GmailCoroutineState, GmailYield};
use crate::text::push_str;
use crate::v1::http::input_view;
use crate::v1::json::{
    fields_view, json_object, json_object_of, json_str_array, json_string_array,
    lemma_values_of_concat, push_field, strings_view, values_of,
};
use crate::v1::query::lemma_pair_values;
use crate::v1::send::{
    body_has, built, json_request, resumed, GmailAuth, GmailMethod, GmailRequest, GmailRequestView,
    GmailSend, GmailSendError, GmailSendOutput, GmailSendView,
};

verus! {

/// The path of the `batchModify` method of messages.
pub open spec fn batch_modify_path(user_id: Seq<char>) -> Seq<char> {
    "users/"@ + user_id + "/messages/batchModify"@
}

/// The request of `users.messages.batchModify`.
pub open spec fn batch_modify_request(user_id: Seq<char>, ids: Seq<Seq<char>>, add: Seq<Seq<char>>, remove: Seq<Seq<char>>) -> GmailRequestView {
    json_request(GmailMethod::Post, batch_modify_path(user_id), batch_modify_json(ids, add, remove))
}

/// The body of a `batchModify` request.
pub open spec fn batch_modify_json(ids: Seq<Seq<char>>, add: Seq<Seq<char>>, remove: Seq<Seq<char>>) -> Seq<char> {
    json_object(
        seq![
            ("ids"@, json_str_array(ids)),
            ("addLabelIds"@, json_str_array(add)),
            ("removeLabelIds"@, json_str_array(remove)),
        ],
    )
}

proof fn lemma_batch_modify_json_key(ids: Seq<Seq<char>>, add: Seq<Seq<char>>, remove: Seq<Seq<char>>, k: Seq<char>)
    ensures
        values_of(seq![("ids"@, json_str_array(ids)), ("addLabelIds"@, json_str_array(add)), ("removeLabelIds"@, json_str_array(remove))], k) == (if "ids"@ == k { seq![json_str_array(ids)] } else { Seq::<Seq<char>>::empty() }) + (if "addLabelIds"@ == k { seq![json_str_array(add)] } else { Seq::<Seq<char>>::empty() }) + (if "removeLabelIds"@ == k { seq![json_str_array(remove)] } else { Seq::<Seq<char>>::empty() }),
{
    let p0 = seq![("ids"@, json_str_array(ids))];
    let p1 = seq![("addLabelIds"@, json_str_array(add))];
    let p2 = seq![("removeLabelIds"@, json_str_array(remove))];
    assert(seq![("ids"@, json_str_array(ids)), ("addLabelIds"@, json_str_array(add)), ("removeLabelIds"@, json_str_array(remove))] =~= p0 + p1 + p2);
    lemma_values_of_concat(p0 + p1, p2, k);
    lemma_values_of_concat(p0, p1, k);
    lemma_pair_values("ids"@, json_str_array(ids), k);
    lemma_pair_values("addLabelIds"@, json_str_array(add), k);
    lemma_pair_values("removeLabelIds"@, json_str_array(remove), k);
}

/// A batch label modification sends the message ids as `ids`, the labels to add
/// as `addLabelIds` and those to remove as `removeLabelIds`, each as a JSON
/// array in the given order.
pub proof fn law_batch_modify_json(user_id: Seq<char>, ids: Seq<Seq<char>>, add: Seq<Seq<char>>, remove: Seq<Seq<char>>)
    ensures
        body_has(batch_modify_request(user_id, ids, add, remove), "ids"@, seq![json_str_array(ids)]),
        body_has(batch_modify_request(user_id, ids, add, remove), "addLabelIds"@, seq![json_str_array(add)]),
        body_has(batch_modify_request(user_id, ids, add, remove), "removeLabelIds"@, seq![json_str_array(remove)]),
{
    assert(batch_modify_request(user_id, ids, add, remove).json == Some(batch_modify_json(ids, add, remove)));
    assert(batch_modify_json(ids, add, remove) == json_object(seq![("ids"@, json_str_array(ids)), ("addLabelIds"@, json_str_array(add)), ("removeLabelIds"@, json_str_array(remove))]));
    reveal_strlit("ids");
    assert("ids"@ =~= seq!['i', 'd', 's']);
    reveal_strlit("addLabelIds");
    assert("addLabelIds"@ =~= seq!['a', 'd', 'd', 'L', 'a', 'b', 'e', 'l', 'I', 'd', 's']);
    reveal_strlit("removeLabelIds");
    assert("removeLabelIds"@ =~= seq!['r', 'e', 'm', 'o', 'v', 'e', 'L', 'a', 'b', 'e', 'l', 'I', 'd', 's']);
    lemma_batch_modify_json_key(ids, add, remove, "ids"@);
    assert(values_of(seq![("ids"@, json_str_array(ids)), ("addLabelIds"@, json_str_array(add)), ("removeLabelIds"@, json_str_array(remove))], "ids"@) =~= seq![json_str_array(ids)]);
    lemma_batch_modify_json_key(ids, add, remove, "addLabelIds"@);
    assert(values_of(seq![("ids"@, json_str_array(ids)), ("addLabelIds"@, json_str_array(add)), ("removeLabelIds"@, json_str_array(remove))], "addLabelIds"@) =~= seq![json_str_array(add)]);
    lemma_batch_modify_json_key(ids, add, remove, "removeLabelIds"@);
    assert(values_of(seq![("ids"@, json_str_array(ids)), ("addLabelIds"@, json_str_array(add)), ("removeLabelIds"@, json_str_array(remove))], "removeLabelIds"@) =~= seq![json_str_array(remove)]);
}

/// Gmail REST batch message label modification, answered with no body.
pub struct GmailMessageBatchModify {
    send: GmailSend,
}

impl View for GmailMessageBatchModify {
    type V = GmailSendView;

    closed spec fn view(&self) -> GmailSendView {
        self.send@
    }
}

impl GmailMessageBatchModify {
    /// The request that `new` sends.
    pub fn request(user_id: &str, ids: &[String], add_label_ids: &[String], remove_label_ids: &[String]) -> (r: GmailRequest)
        ensures
            r@ == batch_modify_request(user_id@, strings_view(ids@), strings_view(add_label_ids@), strings_view(remove_label_ids@)),
    {
        let mut path = String::from_str("users/");
        push_str(&mut path, user_id);
        push_str(&mut path, "/messages/batchModify");
        let mut fields: Vec<(String, String)> = Vec::new();
        push_field(&mut fields, "ids", json_string_array(ids));
        push_field(&mut fields, "addLabelIds", json_string_array(add_label_ids));
        push_field(&mut fields, "removeLabelIds", json_string_array(remove_label_ids));
        let json = json_object_of(&fields);
        assert(fields_view(fields@) =~= seq![
            ("ids"@, json_str_array(strings_view(ids@))),
            ("addLabelIds"@, json_str_array(strings_view(add_label_ids@))),
            ("removeLabelIds"@, json_str_array(strings_view(remove_label_ids@))),
        ]);
        GmailRequest { method: GmailMethod::Post, path, query: None, json: Some(json) }
    }

    /// Adds `add_label_ids` to and removes `remove_label_ids` from messages
    /// `ids` of mailbox `user_id`.
    pub fn new(auth: &GmailAuth, user_id: &str, ids: &[String], add_label_ids: &[String], remove_label_ids: &[String]) -> (r: Result<Self, GmailSendError>)
        ensures
            built(r, auth@, batch_modify_request(user_id@, strings_view(ids@), strings_view(add_label_ids@), strings_view(remove_label_ids@))),
    {
        let request = Self::request(user_id, ids, add_label_ids, remove_label_ids);
        match GmailSend::new(auth, request) {
            Ok(send) => Ok(GmailMessageBatchModify { send }),
            Err(e) => Err(e),
        }
    }
}

impl GmailCoroutine for GmailMessageBatchModify {
    type Yield = GmailYield;
    type Return = Result<GmailSendOutput, GmailSendError>;

    fn resume(&mut self, arg: Option<&[u8]>) -> (r: GmailCoroutineState<
        GmailYield,
        Result<GmailSendOutput, GmailSendError>,
    >)
        ensures
            resumed(old(self)@, final(self)@, input_view(arg), r),
    {
        self.send.resume(arg)
    }
}

} // verus!
