//! Import a Gmail message (`users.messages.import`).

use vstd::prelude::*;
use vstd::string::*;

use crate::coroutine::{GmailCoroutine, GmailCoroutineState, GmailYield};
use crate::text::push_str;
use crate::v1::http::input_view;
use crate::v1::json::{fields_view, json_opt_str, lemma_values_of_concat, opt_view, values_of};
use crate::v1::query::{
    flag_pair, lemma_flag_pair_values, lemma_opt_pair_values, opt_pair, opt_values, push_flag_pair,
    push_pair, true_text,
};
use crate::v1::rest::messages::{
    law_message_json_members, message_json, GmailInternalDateSource, GmailMessage,
};
use crate::v1::send::{
    body_has, built, query_values, resumed, GmailAuth, GmailMethod, GmailRequest, GmailRequestView,
    GmailSend, GmailSendError, GmailSendOutput, GmailSendView,
};

verus! {

/// The path of the `import` method of messages.
pub open spec fn message_import_path(user_id: Seq<char>) -> Seq<char> {
    "users/"@ + user_id + "/messages/import"@
}

/// The request of `users.messages.import`.
pub open spec fn message_import_request(user_id: Seq<char>, message: GmailMessage, source: Option<GmailInternalDateSource>, deleted: bool, never_mark_spam: bool, process_for_calendar: bool) -> GmailRequestView {
    GmailRequestView { method: GmailMethod::Post, path: message_import_path(user_id), query: Some(message_import_query(source, deleted, never_mark_spam, process_for_calendar)), json: Some(message_json(message)) }
}

/// The query of a message import: `internalDateSource` when given, then
/// `deleted`, `neverMarkSpam` and `processForCalendar` set to `true` for
/// each flag that is set.
pub open spec fn message_import_query(
    source: Option<GmailInternalDateSource>,
    deleted: bool,
    never_mark_spam: bool,
    process_for_calendar: bool,
) -> Seq<(Seq<char>, Seq<char>)> {
    opt_pair(
        "internalDateSource"@,
        match source {
            Some(s) => Some(s.name()),
            None => None,
        },
    ) + flag_pair("deleted"@, deleted) + flag_pair("neverMarkSpam"@, never_mark_spam) + flag_pair(
        "processForCalendar"@,
        process_for_calendar,
    )
}

proof fn lemma_message_import_query_key(source: Option<GmailInternalDateSource>, deleted: bool, never_mark_spam: bool, process_for_calendar: bool, k: Seq<char>)
    ensures
        values_of(message_import_query(source, deleted, never_mark_spam, process_for_calendar), k) == (if "internalDateSource"@ == k { opt_values(match source { Some(s) => Some(s.name()), None => None }) } else { Seq::<Seq<char>>::empty() }) + (if "deleted"@ == k && deleted { seq![true_text()] } else { Seq::<Seq<char>>::empty() }) + (if "neverMarkSpam"@ == k && never_mark_spam { seq![true_text()] } else { Seq::<Seq<char>>::empty() }) + (if "processForCalendar"@ == k && process_for_calendar { seq![true_text()] } else { Seq::<Seq<char>>::empty() }),
{
    let p0 = opt_pair("internalDateSource"@, match source { Some(s) => Some(s.name()), None => None });
    let p1 = flag_pair("deleted"@, deleted);
    let p2 = flag_pair("neverMarkSpam"@, never_mark_spam);
    let p3 = flag_pair("processForCalendar"@, process_for_calendar);
    assert(message_import_query(source, deleted, never_mark_spam, process_for_calendar) == p0 + p1 + p2 + p3);
    lemma_values_of_concat(p0 + p1 + p2, p3, k);
    lemma_values_of_concat(p0 + p1, p2, k);
    lemma_values_of_concat(p0, p1, k);
    lemma_opt_pair_values("internalDateSource"@, match source { Some(s) => Some(s.name()), None => None }, k);
    lemma_flag_pair_values("deleted"@, deleted, k);
    lemma_flag_pair_values("neverMarkSpam"@, never_mark_spam, k);
    lemma_flag_pair_values("processForCalendar"@, process_for_calendar, k);
}

/// An import asks for the internal date source when one is given, and for each
/// of `deleted`, `neverMarkSpam` and `processForCalendar` with the value `true`
/// exactly when that flag is set; its body carries the message, raw text
/// included.
pub proof fn law_message_import_query(user_id: Seq<char>, message: GmailMessage, source: Option<GmailInternalDateSource>, deleted: bool, never_mark_spam: bool, process_for_calendar: bool)
    ensures
        query_values(message_import_request(user_id, message, source, deleted, never_mark_spam, process_for_calendar), "internalDateSource"@) == opt_values(match source { Some(s) => Some(s.name()), None => None }),
        query_values(message_import_request(user_id, message, source, deleted, never_mark_spam, process_for_calendar), "deleted"@) == if deleted { seq![true_text()] } else { Seq::<Seq<char>>::empty() },
        query_values(message_import_request(user_id, message, source, deleted, never_mark_spam, process_for_calendar), "neverMarkSpam"@) == if never_mark_spam { seq![true_text()] } else { Seq::<Seq<char>>::empty() },
        query_values(message_import_request(user_id, message, source, deleted, never_mark_spam, process_for_calendar), "processForCalendar"@) == if process_for_calendar { seq![true_text()] } else { Seq::<Seq<char>>::empty() },
        body_has(message_import_request(user_id, message, source, deleted, never_mark_spam, process_for_calendar), "raw"@, seq![json_opt_str(opt_view(message.raw))]),
{
    reveal_strlit("internalDateSource");
    assert("internalDateSource"@ =~= seq!['i', 'n', 't', 'e', 'r', 'n', 'a', 'l', 'D', 'a', 't', 'e', 'S', 'o', 'u', 'r', 'c', 'e']);
    reveal_strlit("deleted");
    assert("deleted"@ =~= seq!['d', 'e', 'l', 'e', 't', 'e', 'd']);
    reveal_strlit("neverMarkSpam");
    assert("neverMarkSpam"@ =~= seq!['n', 'e', 'v', 'e', 'r', 'M', 'a', 'r', 'k', 'S', 'p', 'a', 'm']);
    reveal_strlit("processForCalendar");
    assert("processForCalendar"@ =~= seq!['p', 'r', 'o', 'c', 'e', 's', 's', 'F', 'o', 'r', 'C', 'a', 'l', 'e', 'n', 'd', 'a', 'r']);
    lemma_message_import_query_key(source, deleted, never_mark_spam, process_for_calendar, "internalDateSource"@);
    assert(values_of(message_import_query(source, deleted, never_mark_spam, process_for_calendar), "internalDateSource"@) =~= opt_values(match source { Some(s) => Some(s.name()), None => None }));
    lemma_message_import_query_key(source, deleted, never_mark_spam, process_for_calendar, "deleted"@);
    assert(values_of(message_import_query(source, deleted, never_mark_spam, process_for_calendar), "deleted"@) =~= if deleted { seq![true_text()] } else { Seq::<Seq<char>>::empty() });
    lemma_message_import_query_key(source, deleted, never_mark_spam, process_for_calendar, "neverMarkSpam"@);
    assert(values_of(message_import_query(source, deleted, never_mark_spam, process_for_calendar), "neverMarkSpam"@) =~= if never_mark_spam { seq![true_text()] } else { Seq::<Seq<char>>::empty() });
    lemma_message_import_query_key(source, deleted, never_mark_spam, process_for_calendar, "processForCalendar"@);
    assert(values_of(message_import_query(source, deleted, never_mark_spam, process_for_calendar), "processForCalendar"@) =~= if process_for_calendar { seq![true_text()] } else { Seq::<Seq<char>>::empty() });
    law_message_json_members(message);
}

/// Gmail REST message import, answered with the imported message.
pub struct GmailMessageImport {
    send: GmailSend,
}

impl View for GmailMessageImport {
    type V = GmailSendView;

    closed spec fn view(&self) -> GmailSendView {
        self.send@
    }
}

impl GmailMessageImport {
    /// The request that `new` sends.
    pub fn request(user_id: &str, message: &GmailMessage, internal_date_source: Option<GmailInternalDateSource>, deleted: bool, never_mark_spam: bool, process_for_calendar: bool) -> (r: GmailRequest)
        ensures
            r@ == message_import_request(user_id@, *message, internal_date_source, deleted, never_mark_spam, process_for_calendar),
    {
        let mut path = String::from_str("users/");
        push_str(&mut path, user_id);
        push_str(&mut path, "/messages/import");
        let mut query: Vec<(String, String)> = Vec::new();
        match internal_date_source {
            Some(source) => push_pair(&mut query, "internalDateSource", source.as_str()),
            None => {},
        }
        push_flag_pair(&mut query, "deleted", deleted);
        push_flag_pair(&mut query, "neverMarkSpam", never_mark_spam);
        push_flag_pair(&mut query, "processForCalendar", process_for_calendar);
        assert(fields_view(query@) =~= message_import_query(
            internal_date_source,
            deleted,
            never_mark_spam,
            process_for_calendar,
        ));
        let json = message.to_json();
        GmailRequest { method: GmailMethod::Post, path, query: Some(query), json: Some(json) }
    }

    /// Imports `message` into mailbox `user_id`, the way the internal date is
    /// taken and the three flags set as the query says.
    pub fn new(auth: &GmailAuth, user_id: &str, message: &GmailMessage, internal_date_source: Option<GmailInternalDateSource>, deleted: bool, never_mark_spam: bool, process_for_calendar: bool) -> (r: Result<Self, GmailSendError>)
        ensures
            built(r, auth@, message_import_request(user_id@, *message, internal_date_source, deleted, never_mark_spam, process_for_calendar)),
    {
        let request = Self::request(user_id, message, internal_date_source, deleted, never_mark_spam, process_for_calendar);
        match GmailSend::new(auth, request) {
            Ok(send) => Ok(GmailMessageImport { send }),
            Err(e) => Err(e),
        }
    }
}

impl GmailCoroutine for GmailMessageImport {
    type Yield = GmailYield;
    type Return = Result<GmailSendOutput, GmailSendError>;

    fn resume(&mut self, arg: Option<&[u8]>) -> (r: GmailCoroutineState<
        GmailYield,
        Result<GmailSendOutput, GmailSendError>,
    >)
        ensures
            resumed(old(self)@, final(self)@, input_view(arg), r),
    {
        self.send.resume(arg)
    }
}

} // verus!
