//! Get a Gmail draft (`users.drafts.get`).

use vstd::prelude::*;
use vstd::string::*;

use crate::coroutine::{GmailCoroutine, GmailCoroutineState, GmailYield};
use crate::text::push_str;
use crate::v1::http::input_view;
use crate::v1::json::fields_view;
use crate::v1::query::{lemma_pair_values, push_pair};
use crate::v1::rest::messages::GmailMessageFormat;
use crate::v1::send::{
    built, query_request, query_values, resumed, GmailAuth, GmailMethod, GmailRequest,
    GmailRequestView, GmailSend, GmailSendError, GmailSendOutput, GmailSendView,
};

verus! {

/// The path of a draft.
pub open spec fn draft_get_path(user_id: Seq<char>, id: Seq<char>) -> Seq<char> {
    "users/"@ + user_id + "/drafts/"@ + id
}

/// The request of `users.drafts.get`.
pub open spec fn draft_get_request(user_id: Seq<char>, id: Seq<char>, format: GmailMessageFormat) -> GmailRequestView {
    query_request(GmailMethod::Get, draft_get_path(user_id, id), seq![("format"@, format.name())])
}

/// A draft retrieval asks for the draft in the given format, by the
/// format's name, and for nothing else.
pub proof fn law_draft_get_query(user_id: Seq<char>, id: Seq<char>, format: GmailMessageFormat)
    ensures
        query_values(draft_get_request(user_id, id, format), "format"@) == seq![format.name()],
        draft_get_request(user_id, id, format).query matches Some(q) && q.len() == 1,
{
    lemma_pair_values("format"@, format.name(), "format"@);
}

/// Gmail REST draft retrieval, answered with the draft.
pub struct GmailDraftGet {
    send: GmailSend,
}

impl View for GmailDraftGet {
    type V = GmailSendView;

    closed spec fn view(&self) -> GmailSendView {
        self.send@
    }
}

impl GmailDraftGet {
    /// The request that `new` sends.
    pub fn request(user_id: &str, id: &str, format: GmailMessageFormat) -> (r: GmailRequest)
        ensures
            r@ == draft_get_request(user_id@, id@, format),
    {
        let mut path = String::from_str("users/");
        push_str(&mut path, user_id);
        push_str(&mut path, "/drafts/");
        push_str(&mut path, id);
        let mut query: Vec<(String, String)> = Vec::new();
        push_pair(&mut query, "format", format.as_str());
        assert(fields_view(query@) =~= seq![("format"@, format.name())]);
        GmailRequest { method: GmailMethod::Get, path, query: Some(query), json: None }
    }

    /// Reads draft `id` of mailbox `user_id`, its message in `format`.
    pub fn new(auth: &GmailAuth, user_id: &str, id: &str, format: GmailMessageFormat) -> (r: Result<Self, GmailSendError>)
        ensures
            built(r, auth@, draft_get_request(user_id@, id@, format)),
    {
        let request = Self::request(user_id, id, format);
        match GmailSend::new(auth, request) {
            Ok(send) => Ok(GmailDraftGet { send }),
            Err(e) => Err(e),
        }
    }
}

impl GmailCoroutine for GmailDraftGet {
    type Yield = GmailYield;
    type Return = Result<GmailSendOutput, GmailSendError>;

    fn resume(&mut self, arg: Option<&[u8]>) -> (r: GmailCoroutineState<
        GmailYield,
        Result<GmailSendOutput, GmailSendError>,
    >)
        ensures
            resumed(old(self)@, final(self)@, input_view(arg), r),
    {
        self.send.resume(arg)
    }
}

} // verus!
