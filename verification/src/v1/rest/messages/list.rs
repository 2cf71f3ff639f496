//! List the Gmail messages (`users.messages.list`).

use vstd::prelude::*;
use vstd::string::*;

use crate::coroutine::{GmailCoroutine, GmailCoroutineState, GmailYield};
use crate::text::{decimal, push_str};
use crate::v1::http::input_view;
use crate::v1::json::{fields_view, lemma_values_of_concat, strings_view, values_of};
use crate::v1::query::{
    flag_pair, lemma_flag_pair_values, lemma_opt_number_pair_values, lemma_opt_pair_values,
    lemma_repeated_pairs_values, opt_number_pair, opt_pair, opt_str_view, opt_values,
    push_flag_pair, push_opt_number_pair, push_opt_pair, push_repeated_pairs, repeated_pairs,
    true_text,
};
use crate::v1::rest::messages::GmailMessageId;
use crate::v1::send::{
    built, query_request, query_values, resumed, GmailAuth, GmailMethod, GmailRequest,
    GmailRequestView, GmailSend, GmailSendError, GmailSendOutput, GmailSendView,
};

verus! {

/// The path of the messages of a mailbox.
pub open spec fn messages_path(user_id: Seq<char>) -> Seq<char> {
    "users/"@ + user_id + "/messages"@
}

/// The request of `users.messages.list`.
pub open spec fn messages_list_request(user_id: Seq<char>, params: GmailMessagesListParams<'_>) -> GmailRequestView {
    query_request(GmailMethod::Get, messages_path(user_id), messages_list_query(params))
}

/// Query parameters for listing messages (`users.messages.list`).
#[derive(Debug, Clone, Default, PartialEq, Eq)]
pub struct GmailMessagesListParams<'a> {
    pub q: Option<&'a str>,
    pub label_ids: &'a [String],
    pub max_results: Option<u32>,
    pub page_token: Option<&'a str>,
    pub include_spam_trash: bool,
}

/// Gmail REST message listing response (one page of message ids).
#[derive(Debug, Clone, Default, PartialEq, Eq)]
pub struct GmailMessagesListResponse {
    pub messages: Vec<GmailMessageId>,
    pub next_page_token: Option<String>,
    pub result_size_estimate: Option<u64>,
}

/// The query of a message listing: `q`, one `labelIds` per label,
/// `maxResults`, `pageToken` and `includeSpamTrash=true`, each left out
/// when absent or unset.
pub open spec fn messages_list_query(p: GmailMessagesListParams<'_>) -> Seq<(Seq<char>, Seq<char>)> {
    opt_pair("q"@, opt_str_view(p.q)) + repeated_pairs("labelIds"@, strings_view(p.label_ids@))
        + opt_number_pair("maxResults"@, p.max_results) + opt_pair(
        "pageToken"@,
        opt_str_view(p.page_token),
    ) + flag_pair("includeSpamTrash"@, p.include_spam_trash)
}

/// Each parameter of a message listing that is given yields its own
/// query pairs: `q` its text, `labelIds` one pair per label in order,
/// `maxResults` the number in decimal, `pageToken` the token, and
/// `includeSpamTrash` the value `true` when set; an absent or unset one
/// yields none.
pub proof fn law_messages_list_query(user_id: Seq<char>, p: GmailMessagesListParams<'_>)
    ensures
        query_values(messages_list_request(user_id, p), "q"@) == opt_values(opt_str_view(p.q)),
        query_values(messages_list_request(user_id, p), "labelIds"@) == strings_view(p.label_ids@),
        query_values(messages_list_request(user_id, p), "maxResults"@) == match p.max_results {
            Some(n) => seq![decimal(n as nat)],
            None => Seq::<Seq<char>>::empty(),
        },
        query_values(messages_list_request(user_id, p), "pageToken"@) == opt_values(opt_str_view(p.page_token)),
        query_values(messages_list_request(user_id, p), "includeSpamTrash"@) == if p.include_spam_trash {
            seq![true_text()]
        } else {
            Seq::<Seq<char>>::empty()
        },
{
    reveal_strlit("q");
    reveal_strlit("labelIds");
    reveal_strlit("maxResults");
    reveal_strlit("pageToken");
    reveal_strlit("includeSpamTrash");
    assert("q"@.len() == 1 && "labelIds"@.len() == 8 && "maxResults"@.len() == 10 && "pageToken"@.len() == 9
        && "includeSpamTrash"@.len() == 16);
    lemma_messages_list_key(p, "q"@);
    lemma_messages_list_key(p, "labelIds"@);
    lemma_messages_list_key(p, "maxResults"@);
    lemma_messages_list_key(p, "pageToken"@);
    lemma_messages_list_key(p, "includeSpamTrash"@);
    assert(values_of(messages_list_query(p), "q"@) =~= opt_values(opt_str_view(p.q)));
    assert(values_of(messages_list_query(p), "labelIds"@) =~= strings_view(p.label_ids@));
    assert(values_of(messages_list_query(p), "maxResults"@) =~= match p.max_results {
        Some(n) => seq![decimal(n as nat)],
        None => Seq::<Seq<char>>::empty(),
    });
    assert(values_of(messages_list_query(p), "pageToken"@) =~= opt_values(opt_str_view(p.page_token)));
    assert(values_of(messages_list_query(p), "includeSpamTrash"@) =~= if p.include_spam_trash {
        seq![true_text()]
    } else {
        Seq::<Seq<char>>::empty()
    });
}

proof fn lemma_messages_list_key(p: GmailMessagesListParams<'_>, k: Seq<char>)
    ensures
        values_of(messages_list_query(p), k) == (if "q"@ == k {
            opt_values(opt_str_view(p.q))
        } else {
            Seq::<Seq<char>>::empty()
        }) + (if "labelIds"@ == k {
            strings_view(p.label_ids@)
        } else {
            Seq::<Seq<char>>::empty()
        }) + (if "maxResults"@ == k {
            match p.max_results {
                Some(n) => seq![decimal(n as nat)],
                None => Seq::<Seq<char>>::empty(),
            }
        } else {
            Seq::<Seq<char>>::empty()
        }) + (if "pageToken"@ == k {
            opt_values(opt_str_view(p.page_token))
        } else {
            Seq::<Seq<char>>::empty()
        }) + (if "includeSpamTrash"@ == k && p.include_spam_trash {
            seq![true_text()]
        } else {
            Seq::<Seq<char>>::empty()
        }),
{
    let a = opt_pair("q"@, opt_str_view(p.q));
    let b = repeated_pairs("labelIds"@, strings_view(p.label_ids@));
    let c = opt_number_pair("maxResults"@, p.max_results);
    let d = opt_pair("pageToken"@, opt_str_view(p.page_token));
    let e = flag_pair("includeSpamTrash"@, p.include_spam_trash);
    assert(messages_list_query(p) == a + b + c + d + e);
    lemma_values_of_concat(a + b + c + d, e, k);
    lemma_values_of_concat(a + b + c, d, k);
    lemma_values_of_concat(a + b, c, k);
    lemma_values_of_concat(a, b, k);
    lemma_opt_pair_values("q"@, opt_str_view(p.q), k);
    lemma_repeated_pairs_values("labelIds"@, strings_view(p.label_ids@), k);
    lemma_opt_number_pair_values("maxResults"@, p.max_results, k);
    lemma_opt_pair_values("pageToken"@, opt_str_view(p.page_token), k);
    lemma_flag_pair_values("includeSpamTrash"@, p.include_spam_trash, k);
}

/// Gmail REST message listing, answered with one page of message ids.
pub struct GmailMessagesList {
    send: GmailSend,
}

impl View for GmailMessagesList {
    type V = GmailSendView;

    closed spec fn view(&self) -> GmailSendView {
        self.send@
    }
}

impl GmailMessagesList {
    /// The request that `new` sends.
    pub fn request(user_id: &str, params: &GmailMessagesListParams) -> (r: GmailRequest)
        ensures
            r@ == messages_list_request(user_id@, *params),
    {
        let mut path = String::from_str("users/");
        push_str(&mut path, user_id);
        push_str(&mut path, "/messages");
        let mut query: Vec<(String, String)> = Vec::new();
        push_opt_pair(&mut query, "q", params.q);
        push_repeated_pairs(&mut query, "labelIds", params.label_ids);
        push_opt_number_pair(&mut query, "maxResults", params.max_results);
        push_opt_pair(&mut query, "pageToken", params.page_token);
        push_flag_pair(&mut query, "includeSpamTrash", params.include_spam_trash);
        assert(fields_view(query@) =~= messages_list_query(*params));
        GmailRequest { method: GmailMethod::Get, path, query: Some(query), json: None }
    }

    /// Lists the messages of mailbox `user_id` that `params` selects.
    pub fn new(auth: &GmailAuth, user_id: &str, params: &GmailMessagesListParams) -> (r: Result<Self, GmailSendError>)
        ensures
            built(r, auth@, messages_list_request(user_id@, *params)),
    {
        let request = Self::request(user_id, params);
        match GmailSend::new(auth, request) {
            Ok(send) => Ok(GmailMessagesList { send }),
            Err(e) => Err(e),
        }
    }
}

impl GmailCoroutine for GmailMessagesList {
    type Yield = GmailYield;
    type Return = Result<GmailSendOutput, GmailSendError>;

    fn resume(&mut self, arg: Option<&[u8]>) -> (r: GmailCoroutineState<
        GmailYield,
        Result<GmailSendOutput, GmailSendError>,
    >)
        ensures
            resumed(old(self)@, final(self)@, input_view(arg), r),
    {
        self.send.resume(arg)
    }
}

} // verus!
