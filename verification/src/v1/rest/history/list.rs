//! List the Gmail history records (`users.history.list`).

use vstd::prelude::*;
use vstd::string::*;

use crate::coroutine::{GmailCoroutine, GmailCoroutineState, GmailYield};
use crate::text::{decimal, push_str};
use crate::v1::http::input_view;
use crate::v1::json::{fields_view, lemma_values_of_concat, values_of};
use crate::v1::query::{
    lemma_opt_number_pair_values, lemma_opt_pair_values, lemma_pair_values,
    lemma_repeated_pairs_values, opt_number_pair, opt_pair, opt_str_view, opt_values,
    push_opt_number_pair, push_opt_pair, push_pair, repeated_pairs,
};
use crate::v1::rest::history::{GmailHistory, GmailHistoryType};
use crate::v1::send::{
    built, query_request, query_values, resumed, GmailAuth, GmailMethod, GmailRequest,
    GmailRequestView, GmailSend, GmailSendError, GmailSendOutput, GmailSendView,
};

verus! {

/// The path of the history of a mailbox.
pub open spec fn history_path(user_id: Seq<char>) -> Seq<char> {
    "users/"@ + user_id + "/history"@
}

/// The request of `users.history.list`.
pub open spec fn history_list_request(user_id: Seq<char>, params: GmailHistoryListParams<'_>) -> GmailRequestView {
    query_request(GmailMethod::Get, history_path(user_id), history_list_query(params))
}

/// Query parameters for listing history records (`users.history.list`).
#[derive(Debug, Clone, Default, PartialEq, Eq)]
pub struct GmailHistoryListParams<'a> {
    pub start_history_id: &'a str,
    pub label_id: Option<&'a str>,
    pub history_types: &'a [GmailHistoryType],
    pub max_results: Option<u32>,
    pub page_token: Option<&'a str>,
}

/// Response returned when listing history records (`users.history.list`).
#[derive(Debug, Clone, Default, PartialEq, Eq)]
pub struct GmailHistoryListResponse {
    pub history: Vec<GmailHistory>,
    pub next_page_token: Option<String>,
    pub history_id: Option<String>,
}

/// The query of a history listing: `startHistoryId`, then `labelId`,
/// one `historyTypes` per kind, `maxResults` and `pageToken`, each
/// optional one left out when absent.
pub open spec fn history_list_query(p: GmailHistoryListParams<'_>) -> Seq<(Seq<char>, Seq<char>)> {
    seq![("startHistoryId"@, p.start_history_id@)] + opt_pair("labelId"@, opt_str_view(p.label_id))
        + repeated_pairs("historyTypes"@, p.history_types@.map_values(|t: GmailHistoryType| t.name()))
        + opt_number_pair("maxResults"@, p.max_results) + opt_pair(
        "pageToken"@,
        opt_str_view(p.page_token),
    )
}

proof fn lemma_history_list_query_key(p: GmailHistoryListParams<'_>, k: Seq<char>)
    ensures
        values_of(history_list_query(p), k) == (if "startHistoryId"@ == k { seq![p.start_history_id@] } else { Seq::<Seq<char>>::empty() }) + (if "labelId"@ == k { opt_values(opt_str_view(p.label_id)) } else { Seq::<Seq<char>>::empty() }) + (if "historyTypes"@ == k { p.history_types@.map_values(|t: GmailHistoryType| t.name()) } else { Seq::<Seq<char>>::empty() }) + (if "maxResults"@ == k { match p.max_results { Some(n) => seq![decimal(n as nat)], None => Seq::<Seq<char>>::empty() } } else { Seq::<Seq<char>>::empty() }) + (if "pageToken"@ == k { opt_values(opt_str_view(p.page_token)) } else { Seq::<Seq<char>>::empty() }),
{
    let p0 = seq![("startHistoryId"@, p.start_history_id@)];
    let p1 = opt_pair("labelId"@, opt_str_view(p.label_id));
    let p2 = repeated_pairs("historyTypes"@, p.history_types@.map_values(|t: GmailHistoryType| t.name()));
    let p3 = opt_number_pair("maxResults"@, p.max_results);
    let p4 = opt_pair("pageToken"@, opt_str_view(p.page_token));
    assert(history_list_query(p) == p0 + p1 + p2 + p3 + p4);
    lemma_values_of_concat(p0 + p1 + p2 + p3, p4, k);
    lemma_values_of_concat(p0 + p1 + p2, p3, k);
    lemma_values_of_concat(p0 + p1, p2, k);
    lemma_values_of_concat(p0, p1, k);
    lemma_pair_values("startHistoryId"@, p.start_history_id@, k);
    lemma_opt_pair_values("labelId"@, opt_str_view(p.label_id), k);
    lemma_repeated_pairs_values("historyTypes"@, p.history_types@.map_values(|t: GmailHistoryType| t.name()), k);
    lemma_opt_number_pair_values("maxResults"@, p.max_results, k);
    lemma_opt_pair_values("pageToken"@, opt_str_view(p.page_token), k);
}

/// Each parameter of a history listing yields its own query pairs:
/// `startHistoryId` the starting id, `labelId` the label when given,
/// `historyTypes` the name of each kind in order, `maxResults` the number in
/// decimal and `pageToken` the token when given; an absent one yields none.
pub proof fn law_history_list_query(user_id: Seq<char>, p: GmailHistoryListParams<'_>)
    ensures
        query_values(history_list_request(user_id, p), "startHistoryId"@) == seq![p.start_history_id@],
        query_values(history_list_request(user_id, p), "labelId"@) == opt_values(opt_str_view(p.label_id)),
        query_values(history_list_request(user_id, p), "historyTypes"@) == p.history_types@.map_values(|t: GmailHistoryType| t.name()),
        query_values(history_list_request(user_id, p), "maxResults"@) == match p.max_results { Some(n) => seq![decimal(n as nat)], None => Seq::<Seq<char>>::empty() },
        query_values(history_list_request(user_id, p), "pageToken"@) == opt_values(opt_str_view(p.page_token)),
{
    reveal_strlit("startHistoryId");
    assert("startHistoryId"@ =~= seq!['s', 't', 'a', 'r', 't', 'H', 'i', 's', 't', 'o', 'r', 'y', 'I', 'd']);
    reveal_strlit("labelId");
    assert("labelId"@ =~= seq!['l', 'a', 'b', 'e', 'l', 'I', 'd']);
    reveal_strlit("historyTypes");
    assert("historyTypes"@ =~= seq!['h', 'i', 's', 't', 'o', 'r', 'y', 'T', 'y', 'p', 'e', 's']);
    reveal_strlit("maxResults");
    assert("maxResults"@ =~= seq!['m', 'a', 'x', 'R', 'e', 's', 'u', 'l', 't', 's']);
    reveal_strlit("pageToken");
    assert("pageToken"@ =~= seq!['p', 'a', 'g', 'e', 'T', 'o', 'k', 'e', 'n']);
    lemma_history_list_query_key(p, "startHistoryId"@);
    assert(values_of(history_list_query(p), "startHistoryId"@) =~= seq![p.start_history_id@]);
    lemma_history_list_query_key(p, "labelId"@);
    assert(values_of(history_list_query(p), "labelId"@) =~= opt_values(opt_str_view(p.label_id)));
    lemma_history_list_query_key(p, "historyTypes"@);
    assert(values_of(history_list_query(p), "historyTypes"@) =~= p.history_types@.map_values(|t: GmailHistoryType| t.name()));
    lemma_history_list_query_key(p, "maxResults"@);
    assert(values_of(history_list_query(p), "maxResults"@) =~= match p.max_results { Some(n) => seq![decimal(n as nat)], None => Seq::<Seq<char>>::empty() });
    lemma_history_list_query_key(p, "pageToken"@);
    assert(values_of(history_list_query(p), "pageToken"@) =~= opt_values(opt_str_view(p.page_token)));
}

/// Gmail REST history listing, answered with one page of history records.
pub struct GmailHistoryList {
    send: GmailSend,
}

impl View for GmailHistoryList {
    type V = GmailSendView;

    closed spec fn view(&self) -> GmailSendView {
        self.send@
    }
}

impl GmailHistoryList {
    /// The request that `new` sends.
    pub fn request(user_id: &str, params: &GmailHistoryListParams) -> (r: GmailRequest)
        ensures
            r@ == history_list_request(user_id@, *params),
    {
        let mut path = String::from_str("users/");
        push_str(&mut path, user_id);
        push_str(&mut path, "/history");
        let mut query: Vec<(String, String)> = Vec::new();
        push_pair(&mut query, "startHistoryId", params.start_history_id);
        push_opt_pair(&mut query, "labelId", params.label_id);
        let ghost before = fields_view(query@);
        let ghost kinds = params.history_types@.map_values(|t: GmailHistoryType| t.name());
        let mut i: usize = 0;
        while i < params.history_types.len()
            invariant
                kinds == params.history_types@.map_values(|t: GmailHistoryType| t.name()),
                i <= params.history_types.len(),
                fields_view(query@) == before + repeated_pairs("historyTypes"@, kinds.take(i as int)),
            decreases params.history_types.len() - i,
        {
            push_pair(&mut query, "historyTypes", params.history_types[i].as_str());
            assert(repeated_pairs("historyTypes"@, kinds.take(i + 1)) =~= repeated_pairs(
                "historyTypes"@,
                kinds.take(i as int),
            ).push(("historyTypes"@, params.history_types@[i as int].name())));
            i += 1;
        }
        assert(kinds.take(params.history_types.len() as int) == kinds);
        push_opt_number_pair(&mut query, "maxResults", params.max_results);
        push_opt_pair(&mut query, "pageToken", params.page_token);
        assert(fields_view(query@) =~= history_list_query(*params));
        GmailRequest { method: GmailMethod::Get, path, query: Some(query), json: None }
    }

    /// Lists the history records of mailbox `user_id` that `params` selects.
    pub fn new(auth: &GmailAuth, user_id: &str, params: &GmailHistoryListParams) -> (r: Result<Self, GmailSendError>)
        ensures
            built(r, auth@, history_list_request(user_id@, *params)),
    {
        let request = Self::request(user_id, params);
        match GmailSend::new(auth, request) {
            Ok(send) => Ok(GmailHistoryList { send }),
            Err(e) => Err(e),
        }
    }
}

impl GmailCoroutine for GmailHistoryList {
    type Yield = GmailYield;
    type Return = Result<GmailSendOutput, GmailSendError>;

    fn resume(&mut self, arg: Option<&[u8]>) -> (r: GmailCoroutineState<
        GmailYield,
        Result<GmailSendOutput, GmailSendError>,
    >)
        ensures
            resumed(old(self)@, final(self)@, input_view(arg), r),
    {
        self.send.resume(arg)
    }
}

} // verus!
