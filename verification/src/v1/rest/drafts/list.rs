//! List the Gmail drafts (`users.drafts.list`).

use vstd::prelude::*;
use vstd::string::*;

use crate::coroutine::{GmailCoroutine, GmailCoroutineState, GmailYield};
use crate::text::{decimal, push_str};
use crate::v1::http::input_view;
use crate::v1::json::{fields_view, lemma_values_of_concat, values_of};
use crate::v1::query::{
    flag_pair, lemma_flag_pair_values, lemma_opt_number_pair_values, lemma_opt_pair_values,
    opt_number_pair, opt_pair, opt_str_view, opt_values, push_flag_pair, push_opt_number_pair,
    push_opt_pair, true_text,
};
use crate::v1::rest::drafts::GmailDraft;
use crate::v1::send::{
    built, query_request, query_values, resumed, GmailAuth, GmailMethod, GmailRequest,
    GmailRequestView, GmailSend, GmailSendError, GmailSendOutput, GmailSendView,
};

verus! {

/// The path of the drafts of a mailbox.
pub open spec fn drafts_list_path(user_id: Seq<char>) -> Seq<char> {
    "users/"@ + user_id + "/drafts"@
}

/// The request of `users.drafts.list`.
pub open spec fn drafts_list_request(user_id: Seq<char>, params: GmailDraftsListParams<'_>) -> GmailRequestView {
    query_request(GmailMethod::Get, drafts_list_path(user_id), drafts_list_query(params))
}

/// Query parameters for listing drafts (`users.drafts.list`).
#[derive(Debug, Clone, Default, PartialEq, Eq)]
pub struct GmailDraftsListParams<'a> {
    pub q: Option<&'a str>,
    pub max_results: Option<u32>,
    pub page_token: Option<&'a str>,
    pub include_spam_trash: bool,
}

/// Response returned when listing drafts (`users.drafts.list`).
#[derive(Debug, Clone, Default, PartialEq, Eq)]
pub struct GmailDraftsListResponse {
    pub drafts: Vec<GmailDraft>,
    pub next_page_token: Option<String>,
    pub result_size_estimate: Option<u64>,
}

/// The query of a draft listing: `q`, `maxResults`, `pageToken` and
/// `includeSpamTrash=true`, each left out when absent or unset.
pub open spec fn drafts_list_query(p: GmailDraftsListParams<'_>) -> Seq<(Seq<char>, Seq<char>)> {
    opt_pair("q"@, opt_str_view(p.q)) + opt_number_pair("maxResults"@, p.max_results) + opt_pair(
        "pageToken"@,
        opt_str_view(p.page_token),
    ) + flag_pair("includeSpamTrash"@, p.include_spam_trash)
}

proof fn lemma_drafts_list_query_key(p: GmailDraftsListParams<'_>, k: Seq<char>)
    ensures
        values_of(drafts_list_query(p), k) == (if "q"@ == k { opt_values(opt_str_view(p.q)) } else { Seq::<Seq<char>>::empty() }) + (if "maxResults"@ == k { match p.max_results { Some(n) => seq![decimal(n as nat)], None => Seq::<Seq<char>>::empty() } } else { Seq::<Seq<char>>::empty() }) + (if "pageToken"@ == k { opt_values(opt_str_view(p.page_token)) } else { Seq::<Seq<char>>::empty() }) + (if "includeSpamTrash"@ == k && p.include_spam_trash { seq![true_text()] } else { Seq::<Seq<char>>::empty() }),
{
    let p0 = opt_pair("q"@, opt_str_view(p.q));
    let p1 = opt_number_pair("maxResults"@, p.max_results);
    let p2 = opt_pair("pageToken"@, opt_str_view(p.page_token));
    let p3 = flag_pair("includeSpamTrash"@, p.include_spam_trash);
    assert(drafts_list_query(p) == p0 + p1 + p2 + p3);
    lemma_values_of_concat(p0 + p1 + p2, p3, k);
    lemma_values_of_concat(p0 + p1, p2, k);
    lemma_values_of_concat(p0, p1, k);
    lemma_opt_pair_values("q"@, opt_str_view(p.q), k);
    lemma_opt_number_pair_values("maxResults"@, p.max_results, k);
    lemma_opt_pair_values("pageToken"@, opt_str_view(p.page_token), k);
    lemma_flag_pair_values("includeSpamTrash"@, p.include_spam_trash, k);
}

/// Each parameter of a draft listing that is given yields its own query pair:
/// `q` its text, `maxResults` the number in decimal, `pageToken` the token, and
/// `includeSpamTrash` the value `true` when set; an absent or unset one yields
/// none.
pub proof fn law_drafts_list_query(user_id: Seq<char>, p: GmailDraftsListParams<'_>)
    ensures
        query_values(drafts_list_request(user_id, p), "q"@) == opt_values(opt_str_view(p.q)),
        query_values(drafts_list_request(user_id, p), "maxResults"@) == match p.max_results { Some(n) => seq![decimal(n as nat)], None => Seq::<Seq<char>>::empty() },
        query_values(drafts_list_request(user_id, p), "pageToken"@) == opt_values(opt_str_view(p.page_token)),
        query_values(drafts_list_request(user_id, p), "includeSpamTrash"@) == if p.include_spam_trash { seq![true_text()] } else { Seq::<Seq<char>>::empty() },
{
    reveal_strlit("q");
    assert("q"@ =~= seq!['q']);
    reveal_strlit("maxResults");
    assert("maxResults"@ =~= seq!['m', 'a', 'x', 'R', 'e', 's', 'u', 'l', 't', 's']);
    reveal_strlit("pageToken");
    assert("pageToken"@ =~= seq!['p', 'a', 'g', 'e', 'T', 'o', 'k', 'e', 'n']);
    reveal_strlit("includeSpamTrash");
    assert("includeSpamTrash"@ =~= seq!['i', 'n', 'c', 'l', 'u', 'd', 'e', 'S', 'p', 'a', 'm', 'T', 'r', 'a', 's', 'h']);
    lemma_drafts_list_query_key(p, "q"@);
    assert(values_of(drafts_list_query(p), "q"@) =~= opt_values(opt_str_view(p.q)));
    lemma_drafts_list_query_key(p, "maxResults"@);
    assert(values_of(drafts_list_query(p), "maxResults"@) =~= match p.max_results { Some(n) => seq![decimal(n as nat)], None => Seq::<Seq<char>>::empty() });
    lemma_drafts_list_query_key(p, "pageToken"@);
    assert(values_of(drafts_list_query(p), "pageToken"@) =~= opt_values(opt_str_view(p.page_token)));
    lemma_drafts_list_query_key(p, "includeSpamTrash"@);
    assert(values_of(drafts_list_query(p), "includeSpamTrash"@) =~= if p.include_spam_trash { seq![true_text()] } else { Seq::<Seq<char>>::empty() });
}

/// Gmail REST draft listing, answered with one page of drafts.
pub struct GmailDraftsList {
    send: GmailSend,
}

impl View for GmailDraftsList {
    type V = GmailSendView;

    closed spec fn view(&self) -> GmailSendView {
        self.send@
    }
}

impl GmailDraftsList {
    /// The request that `new` sends.
    pub fn request(user_id: &str, params: &GmailDraftsListParams) -> (r: GmailRequest)
        ensures
            r@ == drafts_list_request(user_id@, *params),
    {
        let mut path = String::from_str("users/");
        push_str(&mut path, user_id);
        push_str(&mut path, "/drafts");
        let mut query: Vec<(String, String)> = Vec::new();
        push_opt_pair(&mut query, "q", params.q);
        push_opt_number_pair(&mut query, "maxResults", params.max_results);
        push_opt_pair(&mut query, "pageToken", params.page_token);
        push_flag_pair(&mut query, "includeSpamTrash", params.include_spam_trash);
        assert(fields_view(query@) =~= drafts_list_query(*params));
        GmailRequest { method: GmailMethod::Get, path, query: Some(query), json: None }
    }

    /// Lists the drafts of mailbox `user_id` that `params` selects.
    pub fn new(auth: &GmailAuth, user_id: &str, params: &GmailDraftsListParams) -> (r: Result<Self, GmailSendError>)
        ensures
            built(r, auth@, drafts_list_request(user_id@, *params)),
    {
        let request = Self::request(user_id, params);
        match GmailSend::new(auth, request) {
            Ok(send) => Ok(GmailDraftsList { send }),
            Err(e) => Err(e),
        }
    }
}

impl GmailCoroutine for GmailDraftsList {
    type Yield = GmailYield;
    type Return = Result<GmailSendOutput, GmailSendError>;

    fn resume(&mut self, arg: Option<&[u8]>) -> (r: GmailCoroutineState<
        GmailYield,
        Result<GmailSendOutput, GmailSendError>,
    >)
        ensures
            resumed(old(self)@, final(self)@, input_view(arg), r),
    {
        self.send.resume(arg)
    }
}

} // verus!
