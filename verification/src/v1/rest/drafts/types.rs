//! Gmail draft resource types.

use vstd::prelude::*;

use crate::v1::json::{
    fields_view, json_object, json_object_of, json_str, lemma_values_of_concat, nonempty_str,
    nonempty_string, object_has, opt_field, push_opt_field, values_of,
};
use crate::v1::query::{lemma_opt_field_values, opt_values};
use crate::v1::rest::messages::{message_json, GmailMessage};

verus! {

proof fn lemma_draft_json_key(d: GmailDraft, k: Seq<char>)
    ensures
        values_of(opt_field("id"@, nonempty_str(d.id@)) + opt_field("message"@, match d.message { Some(m) => Some(message_json(m)), None => None }), k) == (if "id"@ == k { opt_values(nonempty_str(d.id@)) } else { Seq::<Seq<char>>::empty() }) + (if "message"@ == k { opt_values(match d.message { Some(m) => Some(message_json(m)), None => None }) } else { Seq::<Seq<char>>::empty() }),
{
    let p0 = opt_field("id"@, nonempty_str(d.id@));
    let p1 = opt_field("message"@, match d.message { Some(m) => Some(message_json(m)), None => None });
    assert(opt_field("id"@, nonempty_str(d.id@)) + opt_field("message"@, match d.message { Some(m) => Some(message_json(m)), None => None }) =~= p0 + p1);
    lemma_values_of_concat(p0, p1, k);
    lemma_opt_field_values("id"@, nonempty_str(d.id@), k);
    lemma_opt_field_values("message"@, match d.message { Some(m) => Some(message_json(m)), None => None }, k);
}

/// The JSON form of a draft has an `id` member when its id is not empty, and a
/// `message` member holding the message's JSON form when it has one.
pub proof fn law_draft_json(d: GmailDraft)
    ensures
        object_has(draft_json(d), "id"@, if d.id@.len() == 0 { Seq::<Seq<char>>::empty() } else { seq![json_str(d.id@)] }),
        object_has(draft_json(d), "message"@, match d.message { Some(m) => seq![message_json(m)], None => Seq::<Seq<char>>::empty() }),
{
    assert(draft_json(d) == json_object(opt_field("id"@, nonempty_str(d.id@)) + opt_field("message"@, match d.message { Some(m) => Some(message_json(m)), None => None })));
    reveal_strlit("id");
    assert("id"@ =~= seq!['i', 'd']);
    reveal_strlit("message");
    assert("message"@ =~= seq!['m', 'e', 's', 's', 'a', 'g', 'e']);
    lemma_draft_json_key(d, "id"@);
    assert(values_of(opt_field("id"@, nonempty_str(d.id@)) + opt_field("message"@, match d.message { Some(m) => Some(message_json(m)), None => None }), "id"@) =~= if d.id@.len() == 0 { Seq::<Seq<char>>::empty() } else { seq![json_str(d.id@)] });
    lemma_draft_json_key(d, "message"@);
    assert(values_of(opt_field("id"@, nonempty_str(d.id@)) + opt_field("message"@, match d.message { Some(m) => Some(message_json(m)), None => None }), "message"@) =~= match d.message { Some(m) => seq![message_json(m)], None => Seq::<Seq<char>>::empty() });
}

/// Gmail REST draft resource: an id plus its draft message.
#[derive(Debug, Clone, Default, PartialEq, Eq)]
pub struct GmailDraft {
    pub id: String,
    pub message: Option<GmailMessage>,
}

/// The JSON form of a draft: the id is left out when empty and the
/// message when absent.
pub open spec fn draft_json(d: GmailDraft) -> Seq<char> {
    json_object(
        opt_field("id"@, nonempty_str(d.id@)) + opt_field(
            "message"@,
            match d.message {
                Some(m) => Some(message_json(m)),
                None => None,
            },
        ),
    )
}

impl GmailDraft {
    /// The JSON form of the draft.
    pub fn to_json(&self) -> (r: String)
        ensures
            r@ == draft_json(*self),
    {
        let mut fields: Vec<(String, String)> = Vec::new();
        push_opt_field(&mut fields, "id", nonempty_string(self.id.as_str()));
        let message = match &self.message {
            Some(m) => Some(m.to_json()),
            None => None,
        };
        push_opt_field(&mut fields, "message", message);
        let r = json_object_of(&fields);
        assert(fields_view(fields@) =~= opt_field("id"@, nonempty_str(self.id@)) + opt_field(
            "message"@,
            match self.message {
                Some(m) => Some(message_json(m)),
                None => None,
            },
        ));
        r
    }
}

} // verus!
