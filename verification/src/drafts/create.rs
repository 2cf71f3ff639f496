//! Create a Gmail draft from a raw RFC 5322 message (`users.drafts.create`).

use vstd::prelude::*;
use vstd::string::*;

use crate::coroutine::{GmailCoroutine, GmailCoroutineState, GmailYield};
use crate::text::push_str;
use crate::v1::http::input_view;
use crate::v1::json::{
    fields_view, json_object, json_object_of, json_str, json_string, lemma_values_of_concat,
    object_has, opt_field, push_field, push_opt_field, some_str, values_of, values_upto,
};
use crate::v1::query::{lemma_opt_field_values, lemma_pair_values, opt_str_view, opt_values};
use crate::v1::rest::messages::{base64_url_encoded, encode_raw};
use crate::v1::send::{
    body_has, built, json_request, resumed, GmailAuth, GmailMethod, GmailRequest, GmailRequestView,
    GmailSend, GmailSendError, GmailSendOutput, GmailSendView,
};

verus! {

/// The path of the drafts of a mailbox.
pub open spec fn raw_draft_path(user_id: Seq<char>) -> Seq<char> {
    "users/"@ + user_id + "/drafts"@
}

/// The request of `users.drafts.create` from raw bytes.
pub open spec fn raw_draft_create_request(user_id: Seq<char>, rfc5322: Seq<u8>, thread_id: Option<Seq<char>>) -> GmailRequestView {
    json_request(GmailMethod::Post, raw_draft_path(user_id), raw_draft_json(rfc5322, thread_id))
}

/// The body of a raw draft creation: `{"message": {"raw": ..., "threadId":
/// ...}}`,
/// the thread left out when absent.
pub open spec fn raw_draft_json(rfc5322: Seq<u8>, thread_id: Option<Seq<char>>) -> Seq<char> {
    json_object(seq![("message"@, raw_draft_message_json(rfc5322, thread_id))])
}

/// The message of a raw draft.
pub open spec fn raw_draft_message_json(rfc5322: Seq<u8>, thread_id: Option<Seq<char>>) -> Seq<char> {
    json_object(seq![("raw"@, json_str(base64_url_encoded(rfc5322)))] + opt_field("threadId"@, some_str(thread_id)))
}

proof fn lemma_raw_draft_message_key(rfc5322: Seq<u8>, thread_id: Option<Seq<char>>, k: Seq<char>)
    ensures
        values_of(seq![("raw"@, json_str(base64_url_encoded(rfc5322)))] + opt_field("threadId"@, some_str(thread_id)), k) == (if "raw"@ == k { seq![json_str(base64_url_encoded(rfc5322))] } else { Seq::<Seq<char>>::empty() }) + (if "threadId"@ == k { opt_values(some_str(thread_id)) } else { Seq::<Seq<char>>::empty() }),
{
    let p0 = seq![("raw"@, json_str(base64_url_encoded(rfc5322)))];
    let p1 = opt_field("threadId"@, some_str(thread_id));
    assert(seq![("raw"@, json_str(base64_url_encoded(rfc5322)))] + opt_field("threadId"@, some_str(thread_id)) =~= p0 + p1);
    lemma_values_of_concat(p0, p1, k);
    lemma_pair_values("raw"@, json_str(base64_url_encoded(rfc5322)), k);
    lemma_opt_field_values("threadId"@, some_str(thread_id), k);
}

/// The message of a raw draft holds the bytes base64url-encoded as `raw`, and
/// the thread id as `threadId` when one is given.
proof fn lemma_raw_draft_message_members(rfc5322: Seq<u8>, thread_id: Option<Seq<char>>)
    ensures
        object_has(raw_draft_message_json(rfc5322, thread_id), "raw"@, seq![json_str(base64_url_encoded(rfc5322))]),
        object_has(raw_draft_message_json(rfc5322, thread_id), "threadId"@, match thread_id { Some(t) => seq![json_str(t)], None => Seq::<Seq<char>>::empty() }),
{
    assert(raw_draft_message_json(rfc5322, thread_id) == json_object(seq![("raw"@, json_str(base64_url_encoded(rfc5322)))] + opt_field("threadId"@, some_str(thread_id))));
    reveal_strlit("raw");
    assert("raw"@ =~= seq!['r', 'a', 'w']);
    reveal_strlit("threadId");
    assert("threadId"@ =~= seq!['t', 'h', 'r', 'e', 'a', 'd', 'I', 'd']);
    lemma_raw_draft_message_key(rfc5322, thread_id, "raw"@);
    assert(values_of(seq![("raw"@, json_str(base64_url_encoded(rfc5322)))] + opt_field("threadId"@, some_str(thread_id)), "raw"@) =~= seq![json_str(base64_url_encoded(rfc5322))]);
    lemma_raw_draft_message_key(rfc5322, thread_id, "threadId"@);
    assert(values_of(seq![("raw"@, json_str(base64_url_encoded(rfc5322)))] + opt_field("threadId"@, some_str(thread_id)), "threadId"@) =~= match thread_id { Some(t) => seq![json_str(t)], None => Seq::<Seq<char>>::empty() });
}

/// A draft created from raw bytes sends, as its `message` member, a
/// message that holds the bytes base64url-encoded as `raw` and the thread
/// id as `threadId` when one is given.
pub proof fn law_raw_draft_create_body(user_id: Seq<char>, rfc5322: Seq<u8>, thread_id: Option<Seq<char>>)
    ensures
        body_has(raw_draft_create_request(user_id, rfc5322, thread_id), "message"@, seq![raw_draft_message_json(rfc5322, thread_id)]),
        object_has(raw_draft_message_json(rfc5322, thread_id), "raw"@, seq![json_str(base64_url_encoded(rfc5322))]),
        object_has(raw_draft_message_json(rfc5322, thread_id), "threadId"@, match thread_id {
            Some(t) => seq![json_str(t)],
            None => Seq::<Seq<char>>::empty(),
        }),
{
    let fields = seq![("message"@, raw_draft_message_json(rfc5322, thread_id))];
    assert(raw_draft_create_request(user_id, rfc5322, thread_id).json == Some(json_object(fields)));
    reveal_with_fuel(values_upto, 2);
    assert(values_of(fields, "message"@) =~= seq![raw_draft_message_json(rfc5322, thread_id)]);
    lemma_raw_draft_message_members(rfc5322, thread_id);
}

/// Gmail REST draft creation from raw bytes, answered with the created draft.
pub struct GmailDraftCreate {
    send: GmailSend,
}

impl View for GmailDraftCreate {
    type V = GmailSendView;

    closed spec fn view(&self) -> GmailSendView {
        self.send@
    }
}

impl GmailDraftCreate {
    /// The request that `new` sends.
    pub fn request(user_id: &str, rfc5322: &[u8], thread_id: Option<&str>) -> (r: GmailRequest)
        requires
            rfc5322@.len() <= usize::MAX / 2,
        ensures
            r@ == raw_draft_create_request(user_id@, rfc5322@, opt_str_view(thread_id)),
    {
        let mut path = String::from_str("users/");
        push_str(&mut path, user_id);
        push_str(&mut path, "/drafts");
        let raw = encode_raw(rfc5322);
        let mut message: Vec<(String, String)> = Vec::new();
        push_field(&mut message, "raw", json_string(raw.as_str()));
        let thread = match thread_id {
            Some(t) => Some(json_string(t)),
            None => None,
        };
        push_opt_field(&mut message, "threadId", thread);
        assert(fields_view(message@) =~= seq![("raw"@, json_str(base64_url_encoded(rfc5322@)))] + opt_field(
            "threadId"@,
            some_str(opt_str_view(thread_id)),
        ));
        let mut fields: Vec<(String, String)> = Vec::new();
        push_field(&mut fields, "message", json_object_of(&message));
        let json = json_object_of(&fields);
        assert(fields_view(fields@) =~= seq![(
            "message"@,
            json_object(seq![("raw"@, json_str(base64_url_encoded(rfc5322@)))] + opt_field(
                "threadId"@,
                some_str(opt_str_view(thread_id)),
            )),
        )]);
        GmailRequest { method: GmailMethod::Post, path, query: None, json: Some(json) }
    }

    /// Creates a draft in mailbox `user_id` whose message is `rfc5322`, in
    /// thread `thread_id` when given.
    pub fn new(auth: &GmailAuth, user_id: &str, rfc5322: &[u8], thread_id: Option<&str>) -> (r: Result<Self, GmailSendError>)
        requires
            rfc5322@.len() <= usize::MAX / 2,
        ensures
            built(r, auth@, raw_draft_create_request(user_id@, rfc5322@, opt_str_view(thread_id))),
    {
        let request = Self::request(user_id, rfc5322, thread_id);
        match GmailSend::new(auth, request) {
            Ok(send) => Ok(GmailDraftCreate { send }),
            Err(e) => Err(e),
        }
    }
}

impl GmailCoroutine for GmailDraftCreate {
    type Yield = GmailYield;
    type Return = Result<GmailSendOutput, GmailSendError>;

    fn resume(&mut self, arg: Option<&[u8]>) -> (r: GmailCoroutineState<
        GmailYield,
        Result<GmailSendOutput, GmailSendError>,
    >)
        ensures
            resumed(old(self)@, final(self)@, input_view(arg), r),
    {
        self.send.resume(arg)
    }
}

} // verus!
