//! Get a Gmail message (`users.messages.get`).

use vstd::prelude::*;
use vstd::string::*;

use crate::coroutine::{GmailCoroutine, GmailCoroutineState, GmailYield};
use crate::text::push_str;
use crate::v1::http::input_view;
use crate::v1::json::{fields_view, lemma_values_of_concat, values_of};
use crate::v1::query::{
    lemma_no_pair_values, lemma_pair_values, lemma_repeated_pairs_values, push_pair, repeated_pairs,
};
use crate::v1::rest::messages::GmailMessageFormat;
use crate::v1::send::{
    built, query_request, query_values, resumed, GmailAuth, GmailMethod, GmailRequest,
    GmailRequestView, GmailSend, GmailSendError, GmailSendOutput, GmailSendView,
};

verus! {

/// The path of a message.
pub open spec fn message_get_path(user_id: Seq<char>, id: Seq<char>) -> Seq<char> {
    "users/"@ + user_id + "/messages/"@ + id
}

/// The request of `users.messages.get`.
pub open spec fn message_get_request(user_id: Seq<char>, id: Seq<char>, format: GmailMessageFormat, headers: Seq<Seq<char>>) -> GmailRequestView {
    query_request(GmailMethod::Get, message_get_path(user_id, id), message_get_query(format, headers))
}

/// The query of a message retrieval: the format, then, for the metadata
/// format only, one `metadataHeaders` per header name.
pub open spec fn message_get_query(format: GmailMessageFormat, headers: Seq<Seq<char>>) -> Seq<(Seq<char>, Seq<char>)> {
    seq![("format"@, format.name())] + if format is Metadata {
        repeated_pairs("metadataHeaders"@, headers)
    } else {
        Seq::empty()
    }
}

proof fn lemma_message_get_query_key(format: GmailMessageFormat, headers: Seq<Seq<char>>, k: Seq<char>)
    ensures
        values_of(message_get_query(format, headers), k) == (if "format"@ == k { seq![format.name()] } else { Seq::<Seq<char>>::empty() }) + (if "metadataHeaders"@ == k && format is Metadata { headers } else { Seq::<Seq<char>>::empty() }),
{
    let p0 = seq![("format"@, format.name())];
    let p1 = if format is Metadata { repeated_pairs("metadataHeaders"@, headers) } else { Seq::<(Seq<char>, Seq<char>)>::empty() };
    assert(message_get_query(format, headers) == p0 + p1);
    lemma_values_of_concat(p0, p1, k);
    lemma_pair_values("format"@, format.name(), k);
    if format is Metadata { lemma_repeated_pairs_values("metadataHeaders"@, headers, k); } else { lemma_no_pair_values(k); }
}

/// A message retrieval asks for its format, and, with the metadata format only,
/// for each header name in order.
pub proof fn law_message_get_query(user_id: Seq<char>, id: Seq<char>, format: GmailMessageFormat, headers: Seq<Seq<char>>)
    ensures
        query_values(message_get_request(user_id, id, format, headers), "format"@) == seq![format.name()],
        query_values(message_get_request(user_id, id, format, headers), "metadataHeaders"@) == if format is Metadata { headers } else { Seq::<Seq<char>>::empty() },
{
    reveal_strlit("format");
    assert("format"@ =~= seq!['f', 'o', 'r', 'm', 'a', 't']);
    reveal_strlit("metadataHeaders");
    assert("metadataHeaders"@ =~= seq!['m', 'e', 't', 'a', 'd', 'a', 't', 'a', 'H', 'e', 'a', 'd', 'e', 'r', 's']);
    lemma_message_get_query_key(format, headers, "format"@);
    assert(values_of(message_get_query(format, headers), "format"@) =~= seq![format.name()]);
    lemma_message_get_query_key(format, headers, "metadataHeaders"@);
    assert(values_of(message_get_query(format, headers), "metadataHeaders"@) =~= if format is Metadata { headers } else { Seq::<Seq<char>>::empty() });
}

/// Gmail REST message retrieval, answered with the message.
pub struct GmailMessageGet {
    send: GmailSend,
}

impl View for GmailMessageGet {
    type V = GmailSendView;

    closed spec fn view(&self) -> GmailSendView {
        self.send@
    }
}

impl GmailMessageGet {
    /// The request that `new` sends.
    pub fn request(user_id: &str, id: &str, format: GmailMessageFormat, metadata_headers: &[&str]) -> (r: GmailRequest)
        ensures
            r@ == message_get_request(user_id@, id@, format, metadata_headers@.map_values(|h: &str| h@)),
    {
        let mut path = String::from_str("users/");
        push_str(&mut path, user_id);
        push_str(&mut path, "/messages/");
        push_str(&mut path, id);
        let ghost headers = metadata_headers@.map_values(|h: &str| h@);
        let mut query: Vec<(String, String)> = Vec::new();
        push_pair(&mut query, "format", format.as_str());
        let ghost before = fields_view(query@);
        if matches!(format, GmailMessageFormat::Metadata) {
            let mut i: usize = 0;
            while i < metadata_headers.len()
                invariant
                    headers == metadata_headers@.map_values(|h: &str| h@),
                    i <= metadata_headers.len(),
                    fields_view(query@) == before + repeated_pairs("metadataHeaders"@, headers.take(i as int)),
                decreases metadata_headers.len() - i,
            {
                push_pair(&mut query, "metadataHeaders", metadata_headers[i]);
                assert(repeated_pairs("metadataHeaders"@, headers.take(i + 1)) =~= repeated_pairs(
                    "metadataHeaders"@,
                    headers.take(i as int),
                ).push(("metadataHeaders"@, metadata_headers@[i as int]@)));
                i += 1;
            }
            assert(headers.take(metadata_headers.len() as int) == headers);
        }
        assert(fields_view(query@) =~= message_get_query(format, headers));
        GmailRequest { method: GmailMethod::Get, path, query: Some(query), json: None }
    }

    /// Reads message `id` of mailbox `user_id` in `format`; with the metadata
    /// format, only the headers `metadata_headers` are asked for.
    pub fn new(auth: &GmailAuth, user_id: &str, id: &str, format: GmailMessageFormat, metadata_headers: &[&str]) -> (r: Result<Self, GmailSendError>)
        ensures
            built(r, auth@, message_get_request(user_id@, id@, format, metadata_headers@.map_values(|h: &str| h@))),
    {
        let request = Self::request(user_id, id, format, metadata_headers);
        match GmailSend::new(auth, request) {
            Ok(send) => Ok(GmailMessageGet { send }),
            Err(e) => Err(e),
        }
    }
}

impl GmailCoroutine for GmailMessageGet {
    type Yield = GmailYield;
    type Return = Result<GmailSendOutput, GmailSendError>;

    fn resume(&mut self, arg: Option<&[u8]>) -> (r: GmailCoroutineState<
        GmailYield,
        Result<GmailSendOutput, GmailSendError>,
    >)
        ensures
            resumed(old(self)@, final(self)@, input_view(arg), r),
    {
        self.send.resume(arg)
    }
}

} // verus!
