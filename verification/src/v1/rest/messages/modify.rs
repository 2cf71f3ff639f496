//! Modify Gmail message labels (`users.messages.modify`).

use vstd::prelude::*;
use vstd::string::*;

use crate::coroutine::{GmailCoroutine, GmailCoroutineState, GmailYield};
use crate::text::push_str;
use crate::v1::http::input_view;
use crate::v1::json::{
    fields_view, json_object, json_object_of, json_str_array, json_string_array,
    lemma_values_of_concat, push_field, strings_view, values_of,
};
use crate::v1::query::lemma_pair_values;
use crate::v1::send::{
    body_has, built_if, json_request, requested_if, resumed, GmailAuth, GmailMethod, GmailRequest,
    GmailRequestView, GmailSend, GmailSendError, GmailSendOutput, GmailSendView,
};

verus! {

/// The path of a message's `modify` method.
pub open spec fn message_modify_path(user_id: Seq<char>, id: Seq<char>) -> Seq<char> {
    "users/"@ + user_id + "/messages/"@ + id + "/modify"@
}

/// The request of `users.messages.modify`.
pub open spec fn message_modify_request(user_id: Seq<char>, id: Seq<char>, add: Seq<Seq<char>>, remove: Seq<Seq<char>>) -> GmailRequestView {
    json_request(GmailMethod::Post, message_modify_path(user_id, id), message_modify_json(add, remove))
}

/// The message returned when neither list has a label.
pub open spec fn modify_empty_message() -> Seq<char> {
    "Modify requires at least one label update"@
}

/// The body of a `modify` request.
pub open spec fn message_modify_json(add: Seq<Seq<char>>, remove: Seq<Seq<char>>) -> Seq<char> {
    json_object(
        seq![("addLabelIds"@, json_str_array(add)), ("removeLabelIds"@, json_str_array(remove))],
    )
}

proof fn lemma_message_modify_json_key(add: Seq<Seq<char>>, remove: Seq<Seq<char>>, k: Seq<char>)
    ensures
        values_of(seq![("addLabelIds"@, json_str_array(add)), ("removeLabelIds"@, json_str_array(remove))], k) == (if "addLabelIds"@ == k { seq![json_str_array(add)] } else { Seq::<Seq<char>>::empty() }) + (if "removeLabelIds"@ == k { seq![json_str_array(remove)] } else { Seq::<Seq<char>>::empty() }),
{
    let p0 = seq![("addLabelIds"@, json_str_array(add))];
    let p1 = seq![("removeLabelIds"@, json_str_array(remove))];
    assert(seq![("addLabelIds"@, json_str_array(add)), ("removeLabelIds"@, json_str_array(remove))] =~= p0 + p1);
    lemma_values_of_concat(p0, p1, k);
    lemma_pair_values("addLabelIds"@, json_str_array(add), k);
    lemma_pair_values("removeLabelIds"@, json_str_array(remove), k);
}

/// A label modification sends the labels to add as `addLabelIds` and those to
/// remove as `removeLabelIds`, each as a JSON array of the ids in the given
/// order, an empty list as `[]`.
pub proof fn law_message_modify_json(user_id: Seq<char>, id: Seq<char>, add: Seq<Seq<char>>, remove: Seq<Seq<char>>)
    ensures
        body_has(message_modify_request(user_id, id, add, remove), "addLabelIds"@, seq![json_str_array(add)]),
        body_has(message_modify_request(user_id, id, add, remove), "removeLabelIds"@, seq![json_str_array(remove)]),
{
    assert(message_modify_request(user_id, id, add, remove).json == Some(message_modify_json(add, remove)));
    assert(message_modify_json(add, remove) == json_object(seq![("addLabelIds"@, json_str_array(add)), ("removeLabelIds"@, json_str_array(remove))]));
    reveal_strlit("addLabelIds");
    assert("addLabelIds"@ =~= seq!['a', 'd', 'd', 'L', 'a', 'b', 'e', 'l', 'I', 'd', 's']);
    reveal_strlit("removeLabelIds");
    assert("removeLabelIds"@ =~= seq!['r', 'e', 'm', 'o', 'v', 'e', 'L', 'a', 'b', 'e', 'l', 'I', 'd', 's']);
    lemma_message_modify_json_key(add, remove, "addLabelIds"@);
    assert(values_of(seq![("addLabelIds"@, json_str_array(add)), ("removeLabelIds"@, json_str_array(remove))], "addLabelIds"@) =~= seq![json_str_array(add)]);
    lemma_message_modify_json_key(add, remove, "removeLabelIds"@);
    assert(values_of(seq![("addLabelIds"@, json_str_array(add)), ("removeLabelIds"@, json_str_array(remove))], "removeLabelIds"@) =~= seq![json_str_array(remove)]);
}

/// Gmail REST message label modification, answered with the updated message.
pub struct GmailMessageModify {
    send: GmailSend,
}

impl View for GmailMessageModify {
    type V = GmailSendView;

    closed spec fn view(&self) -> GmailSendView {
        self.send@
    }
}

impl GmailMessageModify {
    /// The request that `new` sends.
    pub fn request(user_id: &str, id: &str, add_label_ids: &[String], remove_label_ids: &[String]) -> (r: Result<GmailRequest, GmailSendError>)
        ensures
            requested_if(r, add_label_ids@.len() > 0 || remove_label_ids@.len() > 0, modify_empty_message(), message_modify_request(user_id@, id@, strings_view(add_label_ids@), strings_view(remove_label_ids@))),
    {
        if add_label_ids.len() == 0 && remove_label_ids.len() == 0 {
            return Err(GmailSendError::InvalidRequest(String::from_str("Modify requires at least one label update")));
        }
        let mut path = String::from_str("users/");
        push_str(&mut path, user_id);
        push_str(&mut path, "/messages/");
        push_str(&mut path, id);
        push_str(&mut path, "/modify");
        let mut fields: Vec<(String, String)> = Vec::new();
        push_field(&mut fields, "addLabelIds", json_string_array(add_label_ids));
        push_field(&mut fields, "removeLabelIds", json_string_array(remove_label_ids));
        let json = json_object_of(&fields);
        assert(fields_view(fields@) =~= seq![
            ("addLabelIds"@, json_str_array(strings_view(add_label_ids@))),
            ("removeLabelIds"@, json_str_array(strings_view(remove_label_ids@))),
        ]);
        Ok(GmailRequest { method: GmailMethod::Post, path, query: None, json: Some(json) })
    }

    /// Adds `add_label_ids` to and removes `remove_label_ids` from message `id`
    /// of mailbox `user_id`; at least one of the two lists must hold a label.
    pub fn new(auth: &GmailAuth, user_id: &str, id: &str, add_label_ids: &[String], remove_label_ids: &[String]) -> (r: Result<Self, GmailSendError>)
        ensures
            built_if(r, auth@, add_label_ids@.len() > 0 || remove_label_ids@.len() > 0, modify_empty_message(), message_modify_request(user_id@, id@, strings_view(add_label_ids@), strings_view(remove_label_ids@))),
    {
        let request = match Self::request(user_id, id, add_label_ids, remove_label_ids) {
            Ok(request) => request,
            Err(e) => return Err(e),
        };
        match GmailSend::new(auth, request) {
            Ok(send) => Ok(GmailMessageModify { send }),
            Err(e) => Err(e),
        }
    }
}

impl GmailCoroutine for GmailMessageModify {
    type Yield = GmailYield;
    type Return = Result<GmailSendOutput, GmailSendError>;

    fn resume(&mut self, arg: Option<&[u8]>) -> (r: GmailCoroutineState<
        GmailYield,
        Result<GmailSendOutput, GmailSendError>,
    >)
        ensures
            resumed(old(self)@, final(self)@, input_view(arg), r),
    {
        self.send.resume(arg)
    }
}

} // verus!
