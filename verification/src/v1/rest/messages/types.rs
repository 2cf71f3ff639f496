//! Gmail message resource types, their JSON form, header lookup and the
//! base64url coding of raw RFC 5322 messages.

use vstd::prelude::*;
use vstd::string::*;

use base64::Engine;

use crate::text::{
    ascii_fold, decimal, eq_ignore_ascii_case, is_ascii_space, is_ascii_space_char, push_char,
    str_chars, u64_decimal,
};
use crate::v1::json::{
    fields_view, json_array, json_array_of, json_null, json_null_text, json_object, json_object_of,
    json_opt_number, json_opt_str, json_opt_string, json_opt_u64, json_str, json_str_array,
    json_string, json_string_array, lemma_values_of_concat, object_has, opt_view, push_field,
    strings_view, values_of, values_upto,
};
use crate::v1::query::lemma_pair_values;

verus! {

/// The base64 crate's decoding failure, carried opaque.
#[verifier::external_type_specification]
#[verifier::external_body]
pub struct ExDecodeError(base64::DecodeError);

/// The id of a message and of its thread.
#[derive(Debug, Clone, PartialEq, Eq)]
pub struct GmailMessageId {
    pub id: String,
    pub thread_id: Option<String>,
}

/// A Gmail message.
#[derive(Debug, Clone, PartialEq, Eq)]
pub struct GmailMessage {
    pub id: String,
    pub thread_id: Option<String>,
    pub label_ids: Vec<String>,
    pub internal_date: Option<String>,
    pub snippet: Option<String>,
    pub payload: Option<GmailMessagePayload>,
    pub raw: Option<String>,
    pub size_estimate: Option<u64>,
    pub history_id: Option<String>,
}

/// One MIME part of a message, with its sub-parts.
#[derive(Debug, Default, PartialEq, Eq)]
pub struct GmailMessagePayload {
    pub part_id: Option<String>,
    pub mime_type: Option<String>,
    pub body: Option<GmailMessagePartBody>,
    pub filename: String,
    pub headers: Vec<GmailMessageHeader>,
    pub parts: Vec<GmailMessagePayload>,
}

/// The body of a MIME part, inline or as an attachment reference.
#[derive(Debug, Clone, Default, PartialEq, Eq)]
pub struct GmailMessagePartBody {
    pub attachment_id: Option<String>,
    pub size: u32,
    pub data: Option<String>,
}

/// One header of a MIME part.
#[derive(Debug, Clone, PartialEq, Eq)]
pub struct GmailMessageHeader {
    pub name: String,
    pub value: String,
}

/// The form in which a message is returned.
#[derive(Debug, Clone, Copy, PartialEq, Eq)]
pub enum GmailMessageFormat {
    Minimal,
    Full,
    Raw,
    Metadata,
}

/// Where the internal date of an imported message comes from.
#[derive(Debug, Clone, Copy, PartialEq, Eq)]
pub enum GmailInternalDateSource {
    ReceivedTime,
    DateHeader,
}

/// Whether messages with a label show in the message list.
#[derive(Debug, Clone, Copy, PartialEq, Eq)]
pub enum GmailMessageListVisibility {
    Show,
    Hide,
}

impl Clone for GmailMessagePayload {
    fn clone(&self) -> (r: Self)
        decreases self,
    {
        let mut parts: Vec<GmailMessagePayload> = Vec::new();
        let mut i: usize = 0;
        while i < self.parts.len()
            invariant
                i <= self.parts@.len(),
            decreases self.parts.len() - i,
        {
            assert(decreases_to!(self => self.parts@[i as int]));
            let p = self.parts[i].clone();
            parts.push(p);
            i += 1;
        }
        GmailMessagePayload {
            part_id: self.part_id.clone(),
            mime_type: self.mime_type.clone(),
            body: self.body.clone(),
            filename: self.filename.clone(),
            headers: self.headers.clone(),
            parts,
        }
    }
}

/// Whether a header's name matches `name`, ignoring ASCII case.
pub open spec fn header_matches(h: GmailMessageHeader, name: Seq<char>) -> bool {
    ascii_fold(h.name@) == ascii_fold(name)
}

/// The value of the first header whose name matches `name` ignoring
/// ASCII case, `None` when no header matches.
pub open spec fn first_header(headers: Seq<GmailMessageHeader>, name: Seq<char>) -> Option<Seq<char>>
    decreases headers.len(),
{
    if headers.len() == 0 {
        None
    } else if header_matches(headers[0], name) {
        Some(headers[0].value@)
    } else {
        first_header(headers.drop_first(), name)
    }
}

proof fn lemma_first_header_skip(headers: Seq<GmailMessageHeader>, name: Seq<char>, i: int)
    requires
        0 <= i <= headers.len(),
        forall|j: int| 0 <= j < i ==> !header_matches(#[trigger] headers[j], name),
    ensures
        first_header(headers, name) == first_header(headers.skip(i), name),
    decreases i,
{
    if i > 0 {
        assert(!header_matches(headers[0], name));
        let d = headers.drop_first();
        assert forall|j: int| 0 <= j < i - 1 implies !header_matches(#[trigger] d[j], name) by {
            assert(d[j] == headers[j + 1]);
        }
        lemma_first_header_skip(d, name, i - 1);
        assert(d.skip(i - 1) =~= headers.skip(i));
    } else {
        assert(headers.skip(0) =~= headers);
    }
}

impl GmailMessagePayload {
    /// The value of the first header whose name matches `name` ignoring
    /// ASCII case, if any.
    pub fn header(&self, name: &str) -> (r: Option<&str>)
        ensures
            match r {
                Some(v) => first_header(self.headers@, name@) == Some(v@),
                None => first_header(self.headers@, name@) is None,
            },
    {
        let mut i: usize = 0;
        while i < self.headers.len()
            invariant
                i <= self.headers@.len(),
                forall|j: int| 0 <= j < i ==> !header_matches(#[trigger] self.headers@[j], name@),
            decreases self.headers.len() - i,
        {
            if eq_ignore_ascii_case(self.headers[i].name.as_str(), name) {
                proof {
                    lemma_first_header_skip(self.headers@, name@, i as int);
                    assert(self.headers@.skip(i as int)[0] == self.headers@[i as int]);
                }
                return Some(self.headers[i].value.as_str());
            }
            i += 1;
        }
        proof {
            lemma_first_header_skip(self.headers@, name@, i as int);
        }
        None
    }
}

/// Header lookup ignores ASCII case: two names that differ only in the
/// case of ASCII letters find the same value.
pub proof fn law_header_lookup_ignores_case(
    headers: Seq<GmailMessageHeader>,
    a: Seq<char>,
    b: Seq<char>,
)
    requires
        ascii_fold(a) == ascii_fold(b),
    ensures
        first_header(headers, a) == first_header(headers, b),
    decreases headers.len(),
{
    if headers.len() > 0 {
        law_header_lookup_ignores_case(headers.drop_first(), a, b);
    }
}

/// Appending a header never changes what an earlier matching header
/// gives; where no earlier header matches, the new one is found when its
/// name matches.
pub proof fn law_header_append(headers: Seq<GmailMessageHeader>, h: GmailMessageHeader, name: Seq<char>)
    ensures
        first_header(headers, name) is Some ==> first_header(headers.push(h), name) == first_header(headers, name),
        first_header(headers, name) is None && header_matches(h, name) ==> first_header(headers.push(h), name)
            == Some(h.value@),
        first_header(headers, name) is None && !header_matches(h, name) ==> first_header(headers.push(h), name)
            is None,
    decreases headers.len(),
{
    if headers.len() > 0 {
        assert(headers.push(h).drop_first() =~= headers.drop_first().push(h));
        law_header_append(headers.drop_first(), h, name);
    } else {
        assert(headers.push(h).drop_first() =~= Seq::<GmailMessageHeader>::empty());
        assert(first_header(headers.push(h).drop_first(), name) is None);
    }
}

/// Each message format is asked for by its name in capitals, and distinct
/// formats by distinct names.
pub proof fn law_message_format_names(a: GmailMessageFormat, b: GmailMessageFormat)
    ensures
        a != b ==> a.name() != b.name(),
        (a == GmailMessageFormat::Minimal) == (a.name() == "MINIMAL"@),
        (a == GmailMessageFormat::Full) == (a.name() == "FULL"@),
        (a == GmailMessageFormat::Raw) == (a.name() == "RAW"@),
        (a == GmailMessageFormat::Metadata) == (a.name() == "METADATA"@),
{
    reveal_strlit("MINIMAL");
    assert("MINIMAL"@ =~= seq!['M', 'I', 'N', 'I', 'M', 'A', 'L']);
    reveal_strlit("FULL");
    assert("FULL"@ =~= seq!['F', 'U', 'L', 'L']);
    reveal_strlit("RAW");
    assert("RAW"@ =~= seq!['R', 'A', 'W']);
    reveal_strlit("METADATA");
    assert("METADATA"@ =~= seq!['M', 'E', 'T', 'A', 'D', 'A', 'T', 'A']);
}

impl GmailMessageFormat {
    /// The name of the format as the API spells it.
    pub open spec fn name(self) -> Seq<char> {
        match self {
            GmailMessageFormat::Minimal => seq!['M', 'I', 'N', 'I', 'M', 'A', 'L'],
            GmailMessageFormat::Full => seq!['F', 'U', 'L', 'L'],
            GmailMessageFormat::Raw => seq!['R', 'A', 'W'],
            GmailMessageFormat::Metadata => seq!['M', 'E', 'T', 'A', 'D', 'A', 'T', 'A'],
        }
    }

    /// The name of the format as the API spells it.
    pub fn as_str(self) -> (r: &'static str)
        ensures
            r@ == self.name(),
    {
        match self {
            GmailMessageFormat::Minimal => {
                proof {
                    reveal_strlit("MINIMAL");
                }
                "MINIMAL"
            },
            GmailMessageFormat::Full => {
                proof {
                    reveal_strlit("FULL");
                }
                "FULL"
            },
            GmailMessageFormat::Raw => {
                proof {
                    reveal_strlit("RAW");
                }
                "RAW"
            },
            GmailMessageFormat::Metadata => {
                proof {
                    reveal_strlit("METADATA");
                }
                "METADATA"
            },
        }
    }
}

/// Each internal date source is asked for by the API's name for it, the variant
/// in camelCase, and distinct sources by distinct names.
pub proof fn law_internal_date_source_names(a: GmailInternalDateSource, b: GmailInternalDateSource)
    ensures
        a != b ==> a.name() != b.name(),
        (a == GmailInternalDateSource::ReceivedTime) == (a.name() == "receivedTime"@),
        (a == GmailInternalDateSource::DateHeader) == (a.name() == "dateHeader"@),
{
    reveal_strlit("receivedTime");
    assert("receivedTime"@ =~= seq!['r', 'e', 'c', 'e', 'i', 'v', 'e', 'd', 'T', 'i', 'm', 'e']);
    reveal_strlit("dateHeader");
    assert("dateHeader"@ =~= seq!['d', 'a', 't', 'e', 'H', 'e', 'a', 'd', 'e', 'r']);
}

impl GmailInternalDateSource {
    /// The value of the `internalDateSource` query parameter.
    pub open spec fn name(self) -> Seq<char> {
        match self {
            GmailInternalDateSource::ReceivedTime => seq![
                'r',
                'e',
                'c',
                'e',
                'i',
                'v',
                'e',
                'd',
                'T',
                'i',
                'm',
                'e',
            ],
            GmailInternalDateSource::DateHeader => seq![
                'd',
                'a',
                't',
                'e',
                'H',
                'e',
                'a',
                'd',
                'e',
                'r',
            ],
        }
    }

    /// The value of the `internalDateSource` query parameter.
    pub fn as_str(self) -> (r: &'static str)
        ensures
            r@ == self.name(),
    {
        match self {
            GmailInternalDateSource::ReceivedTime => {
                proof {
                    reveal_strlit("receivedTime");
                }
                "receivedTime"
            },
            GmailInternalDateSource::DateHeader => {
                proof {
                    reveal_strlit("dateHeader");
                }
                "dateHeader"
            },
        }
    }
}

/// Each message-list visibility is written as the API names it, and distinct
/// ones differently.
pub proof fn law_message_list_visibility_names(a: GmailMessageListVisibility, b: GmailMessageListVisibility)
    ensures
        a != b ==> a.name() != b.name(),
        (a == GmailMessageListVisibility::Show) == (a.name() == "show"@),
        (a == GmailMessageListVisibility::Hide) == (a.name() == "hide"@),
{
    reveal_strlit("show");
    assert("show"@ =~= seq!['s', 'h', 'o', 'w']);
    reveal_strlit("hide");
    assert("hide"@ =~= seq!['h', 'i', 'd', 'e']);
}

impl GmailMessageListVisibility {
    /// The JSON value of the visibility.
    pub open spec fn name(self) -> Seq<char> {
        match self {
            GmailMessageListVisibility::Show => seq!['s', 'h', 'o', 'w'],
            GmailMessageListVisibility::Hide => seq!['h', 'i', 'd', 'e'],
        }
    }

    /// The JSON value of the visibility.
    pub fn as_str(self) -> (r: &'static str)
        ensures
            r@ == self.name(),
    {
        match self {
            GmailMessageListVisibility::Show => {
                proof {
                    reveal_strlit("show");
                }
                "show"
            },
            GmailMessageListVisibility::Hide => {
                proof {
                    reveal_strlit("hide");
                }
                "hide"
            },
        }
    }
}

/// What `URL_SAFE_NO_PAD.decode` gives for the text, `None` when it is
/// not valid unpadded base64url.
pub uninterp spec fn base64_url_decoded(text: Seq<char>) -> Option<Seq<u8>>;

/// What `URL_SAFE_NO_PAD.encode` gives for the bytes.
pub uninterp spec fn base64_url_encoded(bytes: Seq<u8>) -> Seq<char>;

/// The characters of the base64url alphabet.
pub open spec fn is_base64_url_char(c: char) -> bool {
    ('A' <= c && c <= 'Z') || ('a' <= c && c <= 'z') || ('0' <= c && c <= '9') || c == '-' || c
        == '_'
}

/// `base64::engine::general_purpose::URL_SAFE_NO_PAD.decode`. The
/// contract claims that the outcome is a function of the text
/// (`base64_url_decoded`).
#[verifier::external_body]
fn base64_url_decode(text: &str) -> (r: Result<Vec<u8>, base64::DecodeError>)
    ensures
        match r {
            Ok(bytes) => base64_url_decoded(text@) == Some(bytes@),
            Err(_) => base64_url_decoded(text@) is None,
        },
{
    base64::engine::general_purpose::URL_SAFE_NO_PAD.decode(text)
}

/// `base64::engine::general_purpose::URL_SAFE_NO_PAD.encode`. The
/// contract claims that the text is a function of the bytes
/// (`base64_url_encoded`), that it is made of base64url alphabet
/// characters only (the engine writes no padding), and that decoding it
/// gives the bytes back. The engine panics when the encoded length
/// overflows `usize`, which no slice held in memory reaches; the
/// `requires` rules it out.
#[verifier::external_body]
fn base64_url_encode(bytes: &[u8]) -> (r: String)
    requires
        bytes@.len() <= usize::MAX / 2,
    ensures
        r@ == base64_url_encoded(bytes@),
        forall|i: int| 0 <= i < r@.len() ==> is_base64_url_char(#[trigger] r@[i]),
        base64_url_decoded(r@) == Some(bytes@),
{
    base64::engine::general_purpose::URL_SAFE_NO_PAD.encode(bytes)
}

/// The characters that are not ASCII whitespace, in order.
pub open spec fn without_ascii_space(s: Seq<char>) -> Seq<char> {
    s.filter(|c: char| !is_ascii_space(c))
}

/// The sequence without its trailing `=` characters.
pub open spec fn trim_end_eq(s: Seq<char>) -> Seq<char>
    decreases s.len(),
{
    if s.len() > 0 && s.last() == '=' {
        trim_end_eq(s.drop_last())
    } else {
        s
    }
}

/// The text that is handed to the base64url decoder: the raw value with
/// its ASCII whitespace removed and its trailing `=` padding trimmed.
pub open spec fn raw_normalized(raw: Seq<char>) -> Seq<char> {
    trim_end_eq(without_ascii_space(raw))
}

/// Decodes a `raw` message field: ASCII whitespace is dropped, trailing
/// `=` padding is trimmed, and the rest is decoded as unpadded
/// base64url.
pub fn decode_raw(raw: &str) -> (r: Result<Vec<u8>, base64::DecodeError>)
    ensures
        match r {
            Ok(bytes) => base64_url_decoded(raw_normalized(raw@)) == Some(bytes@),
            Err(_) => base64_url_decoded(raw_normalized(raw@)) is None,
        },
{
    let chars = str_chars(raw);
    let mut kept: Vec<char> = Vec::new();
    let mut i: usize = 0;
    while i < chars.len()
        invariant
            chars@ == raw@,
            i <= chars.len(),
            kept@ == without_ascii_space(chars@.take(i as int)),
        decreases chars.len() - i,
    {
        proof {
            let t = chars@.take(i + 1);
            assert(t.drop_last() == chars@.take(i as int));
            reveal(Seq::filter);
        }
        if !is_ascii_space_char(chars[i]) {
            kept.push(chars[i]);
        }
        i += 1;
    }
    assert(chars@.take(chars.len() as int) == chars@);
    let mut end: usize = kept.len();
    assert(kept@.take(end as int) == kept@);
    while end > 0 && kept[end - 1] == '='
        invariant
            end <= kept.len(),
            trim_end_eq(kept@) == trim_end_eq(kept@.take(end as int)),
        decreases end,
    {
        proof {
            let t = kept@.take(end as int);
            assert(t.drop_last() == kept@.take(end - 1));
        }
        end -= 1;
    }
    proof {
        let t = kept@.take(end as int);
        assert(trim_end_eq(t) == t);
    }
    let mut normalized = String::new();
    let mut j: usize = 0;
    while j < end
        invariant
            end <= kept.len(),
            j <= end,
            normalized@ == kept@.take(j as int),
        decreases end - j,
    {
        push_char(&mut normalized, kept[j]);
        assert(kept@.take(j + 1) == kept@.take(j as int).push(kept@[j as int]));
        j += 1;
    }
    base64_url_decode(normalized.as_str())
}

/// Encodes a message for the `raw` field: unpadded base64url. What it
/// writes is left unchanged by the normalization of `decode_raw`, and
/// decodes back to the bytes.
pub fn encode_raw(raw: &[u8]) -> (r: String)
    requires
        raw@.len() <= usize::MAX / 2,
    ensures
        r@ == base64_url_encoded(raw@),
        forall|i: int| 0 <= i < r@.len() ==> is_base64_url_char(#[trigger] r@[i]),
        raw_normalized(r@) == r@,
        base64_url_decoded(raw_normalized(r@)) == Some(raw@),
{
    let r = base64_url_encode(raw);
    proof {
        lemma_alphabet_normalized(r@);
    }
    r
}

/// The normalization of `decode_raw` ignores ASCII whitespace anywhere
/// and `=` padding at the end: appending either leaves the decoded
/// text unchanged.
pub proof fn law_raw_ignores_space_and_padding(s: Seq<char>, c: char)
    requires
        is_ascii_space(c) || c == '=',
    ensures
        raw_normalized(s.push(c)) == raw_normalized(s),
{
    reveal(Seq::filter);
    assert(s.push(c).drop_last() == s);
    if c == '=' {
        assert(without_ascii_space(s.push(c)) == without_ascii_space(s).push(c));
        assert(without_ascii_space(s).push(c).drop_last() == without_ascii_space(s));
    }
}

proof fn lemma_alphabet_normalized(s: Seq<char>)
    requires
        forall|i: int| 0 <= i < s.len() ==> is_base64_url_char(#[trigger] s[i]),
    ensures
        raw_normalized(s) == s,
{
    lemma_filter_keeps_alphabet(s);
    if s.len() > 0 {
        assert(is_base64_url_char(s.last()));
    }
}

proof fn lemma_filter_keeps_alphabet(s: Seq<char>)
    requires
        forall|i: int| 0 <= i < s.len() ==> is_base64_url_char(#[trigger] s[i]),
    ensures
        without_ascii_space(s) == s,
    decreases s.len(),
{
    reveal(Seq::filter);
    if s.len() > 0 {
        let d = s.drop_last();
        assert forall|i: int| 0 <= i < d.len() implies is_base64_url_char(#[trigger] d[i]) by {
            assert(d[i] == s[i]);
        }
        lemma_filter_keeps_alphabet(d);
        assert(is_base64_url_char(s.last()));
        assert(d.push(s.last()) == s);
    }
}

/// The JSON form of a header.
pub open spec fn header_json(h: GmailMessageHeader) -> Seq<char> {
    json_object(seq![("name"@, json_str(h.name@)), ("value"@, json_str(h.value@))])
}

/// The JSON array of headers.
pub open spec fn headers_json(hs: Seq<GmailMessageHeader>) -> Seq<char> {
    json_array(hs.map_values(|h: GmailMessageHeader| header_json(h)))
}

/// The JSON form of a part body.
pub open spec fn part_body_json(b: GmailMessagePartBody) -> Seq<char> {
    json_object(
        seq![
            ("attachmentId"@, json_opt_str(opt_view(b.attachment_id))),
            ("size"@, decimal(b.size as nat)),
            ("data"@, json_opt_str(opt_view(b.data))),
        ],
    )
}

/// The JSON form of an optional part body.
pub open spec fn opt_part_body_json(b: Option<GmailMessagePartBody>) -> Seq<char> {
    match b {
        Some(b) => part_body_json(b),
        None => json_null(),
    }
}

/// The JSON form of a MIME part and its sub-parts.
pub open spec fn payload_json(p: GmailMessagePayload) -> Seq<char>
    decreases p, 1nat,
{
    json_object(
        seq![
            ("partId"@, json_opt_str(opt_view(p.part_id))),
            ("mimeType"@, json_opt_str(opt_view(p.mime_type))),
            ("body"@, opt_part_body_json(p.body)),
            ("filename"@, json_str(p.filename@)),
            ("headers"@, headers_json(p.headers@)),
            ("parts"@, json_array(payloads_json(p.parts@))),
        ],
    )
}

/// The JSON forms of a sequence of MIME parts.
pub open spec fn payloads_json(ps: Seq<GmailMessagePayload>) -> Seq<Seq<char>>
    decreases ps, 0nat,
{
    if ps.len() == 0 {
        Seq::empty()
    } else {
        payloads_json(ps.drop_last()).push(payload_json(ps.last()))
    }
}

/// The JSON form of an optional MIME part.
pub open spec fn opt_payload_json(p: Option<GmailMessagePayload>) -> Seq<char> {
    match p {
        Some(p) => payload_json(p),
        None => json_null(),
    }
}

/// The JSON form of a message.
pub open spec fn message_json(m: GmailMessage) -> Seq<char> {
    json_object(
        seq![
            ("id"@, json_str(m.id@)),
            ("threadId"@, json_opt_str(opt_view(m.thread_id))),
            ("labelIds"@, json_str_array(strings_view(m.label_ids@))),
            ("internalDate"@, json_opt_str(opt_view(m.internal_date))),
            ("snippet"@, json_opt_str(opt_view(m.snippet))),
            ("payload"@, opt_payload_json(m.payload)),
            ("raw"@, json_opt_str(opt_view(m.raw))),
            ("sizeEstimate"@, json_opt_u64(m.size_estimate)),
            ("historyId"@, json_opt_str(opt_view(m.history_id))),
        ],
    )
}

/// The sub-parts of a MIME part are written one JSON form per part, in
/// order.
pub proof fn law_parts_in_order(ps: Seq<GmailMessagePayload>)
    ensures
        payloads_json(ps).len() == ps.len(),
        forall|i: int| 0 <= i < ps.len() ==> #[trigger] payloads_json(ps)[i] == payload_json(ps[i]),
    decreases ps.len(),
{
    if ps.len() > 0 {
        law_parts_in_order(ps.drop_last());
        assert forall|i: int| 0 <= i < ps.len() implies #[trigger] payloads_json(ps)[i] == payload_json(ps[i]) by {
            if i < ps.len() - 1 {
                assert(payloads_json(ps.drop_last())[i] == payload_json(ps.drop_last()[i]));
            }
        }
    }
}

/// The JSON form of a message has one member for each field, named as
/// the API names it: the id, the thread id, the label ids, the internal
/// date, the snippet, the payload, the raw text, the size estimate and
/// the history id, an absent one written `null`.
pub proof fn law_message_json_members(m: GmailMessage)
    ensures
        object_has(message_json(m), "id"@, seq![json_str(m.id@)]),
        object_has(message_json(m), "threadId"@, seq![json_opt_str(opt_view(m.thread_id))]),
        object_has(message_json(m), "labelIds"@, seq![json_str_array(strings_view(m.label_ids@))]),
        object_has(message_json(m), "internalDate"@, seq![json_opt_str(opt_view(m.internal_date))]),
        object_has(message_json(m), "snippet"@, seq![json_opt_str(opt_view(m.snippet))]),
        object_has(message_json(m), "payload"@, seq![opt_payload_json(m.payload)]),
        object_has(message_json(m), "raw"@, seq![json_opt_str(opt_view(m.raw))]),
        object_has(message_json(m), "sizeEstimate"@, seq![json_opt_u64(m.size_estimate)]),
        object_has(message_json(m), "historyId"@, seq![json_opt_str(opt_view(m.history_id))]),
{
    let fields = seq![
        ("id"@, json_str(m.id@)),
        ("threadId"@, json_opt_str(opt_view(m.thread_id))),
        ("labelIds"@, json_str_array(strings_view(m.label_ids@))),
        ("internalDate"@, json_opt_str(opt_view(m.internal_date))),
        ("snippet"@, json_opt_str(opt_view(m.snippet))),
        ("payload"@, opt_payload_json(m.payload)),
        ("raw"@, json_opt_str(opt_view(m.raw))),
        ("sizeEstimate"@, json_opt_u64(m.size_estimate)),
        ("historyId"@, json_opt_str(opt_view(m.history_id))),
    ];
    assert(message_json(m) == json_object(fields));
    lemma_message_keys();
    reveal_with_fuel(values_upto, 10);
    assert(values_of(fields, "id"@) =~= seq![json_str(m.id@)]);
    assert(values_of(fields, "threadId"@) =~= seq![json_opt_str(opt_view(m.thread_id))]);
    assert(values_of(fields, "labelIds"@) =~= seq![json_str_array(strings_view(m.label_ids@))]);
    assert(values_of(fields, "internalDate"@) =~= seq![json_opt_str(opt_view(m.internal_date))]);
    assert(values_of(fields, "snippet"@) =~= seq![json_opt_str(opt_view(m.snippet))]);
    assert(values_of(fields, "payload"@) =~= seq![opt_payload_json(m.payload)]);
    assert(values_of(fields, "raw"@) =~= seq![json_opt_str(opt_view(m.raw))]);
    assert(values_of(fields, "sizeEstimate"@) =~= seq![json_opt_u64(m.size_estimate)]);
    assert(values_of(fields, "historyId"@) =~= seq![json_opt_str(opt_view(m.history_id))]);
}

proof fn lemma_message_keys()
    ensures
        "id"@.len() == 2,
        "raw"@.len() == 3,
        "snippet"@ == seq!['s', 'n', 'i', 'p', 'p', 'e', 't'],
        "payload"@ == seq!['p', 'a', 'y', 'l', 'o', 'a', 'd'],
        "threadId"@ == seq!['t', 'h', 'r', 'e', 'a', 'd', 'I', 'd'],
        "labelIds"@ == seq!['l', 'a', 'b', 'e', 'l', 'I', 'd', 's'],
        "historyId"@.len() == 9,
        "internalDate"@ == seq!['i', 'n', 't', 'e', 'r', 'n', 'a', 'l', 'D', 'a', 't', 'e'],
        "sizeEstimate"@ == seq!['s', 'i', 'z', 'e', 'E', 's', 't', 'i', 'm', 'a', 't', 'e'],
{
    reveal_strlit("id");
    reveal_strlit("raw");
    reveal_strlit("snippet");
    reveal_strlit("payload");
    reveal_strlit("threadId");
    reveal_strlit("labelIds");
    reveal_strlit("historyId");
    reveal_strlit("internalDate");
    reveal_strlit("sizeEstimate");
}

proof fn lemma_header_json_key(h: GmailMessageHeader, k: Seq<char>)
    ensures
        values_of(seq![("name"@, json_str(h.name@)), ("value"@, json_str(h.value@))], k) == (if "name"@ == k { seq![json_str(h.name@)] } else { Seq::<Seq<char>>::empty() }) + (if "value"@ == k { seq![json_str(h.value@)] } else { Seq::<Seq<char>>::empty() }),
{
    let p0 = seq![("name"@, json_str(h.name@))];
    let p1 = seq![("value"@, json_str(h.value@))];
    assert(seq![("name"@, json_str(h.name@)), ("value"@, json_str(h.value@))] =~= p0 + p1);
    lemma_values_of_concat(p0, p1, k);
    lemma_pair_values("name"@, json_str(h.name@), k);
    lemma_pair_values("value"@, json_str(h.value@), k);
}

/// The JSON form of a header holds its name as `name` and its value as `value`.
pub proof fn law_header_json(h: GmailMessageHeader)
    ensures
        object_has(header_json(h), "name"@, seq![json_str(h.name@)]),
        object_has(header_json(h), "value"@, seq![json_str(h.value@)]),
{
    assert(header_json(h) == json_object(seq![("name"@, json_str(h.name@)), ("value"@, json_str(h.value@))]));
    reveal_strlit("name");
    assert("name"@ =~= seq!['n', 'a', 'm', 'e']);
    reveal_strlit("value");
    assert("value"@ =~= seq!['v', 'a', 'l', 'u', 'e']);
    lemma_header_json_key(h, "name"@);
    assert(values_of(seq![("name"@, json_str(h.name@)), ("value"@, json_str(h.value@))], "name"@) =~= seq![json_str(h.name@)]);
    lemma_header_json_key(h, "value"@);
    assert(values_of(seq![("name"@, json_str(h.name@)), ("value"@, json_str(h.value@))], "value"@) =~= seq![json_str(h.value@)]);
}

proof fn lemma_part_body_json_key(b: GmailMessagePartBody, k: Seq<char>)
    ensures
        values_of(seq![("attachmentId"@, json_opt_str(opt_view(b.attachment_id))), ("size"@, decimal(b.size as nat)), ("data"@, json_opt_str(opt_view(b.data)))], k) == (if "attachmentId"@ == k { seq![json_opt_str(opt_view(b.attachment_id))] } else { Seq::<Seq<char>>::empty() }) + (if "size"@ == k { seq![decimal(b.size as nat)] } else { Seq::<Seq<char>>::empty() }) + (if "data"@ == k { seq![json_opt_str(opt_view(b.data))] } else { Seq::<Seq<char>>::empty() }),
{
    let p0 = seq![("attachmentId"@, json_opt_str(opt_view(b.attachment_id)))];
    let p1 = seq![("size"@, decimal(b.size as nat))];
    let p2 = seq![("data"@, json_opt_str(opt_view(b.data)))];
    assert(seq![("attachmentId"@, json_opt_str(opt_view(b.attachment_id))), ("size"@, decimal(b.size as nat)), ("data"@, json_opt_str(opt_view(b.data)))] =~= p0 + p1 + p2);
    lemma_values_of_concat(p0 + p1, p2, k);
    lemma_values_of_concat(p0, p1, k);
    lemma_pair_values("attachmentId"@, json_opt_str(opt_view(b.attachment_id)), k);
    lemma_pair_values("size"@, decimal(b.size as nat), k);
    lemma_pair_values("data"@, json_opt_str(opt_view(b.data)), k);
}

/// The JSON form of a part body holds the attachment id, the size in decimal
/// and the data, an absent one written `null`.
pub proof fn law_part_body_json(b: GmailMessagePartBody)
    ensures
        object_has(part_body_json(b), "attachmentId"@, seq![json_opt_str(opt_view(b.attachment_id))]),
        object_has(part_body_json(b), "size"@, seq![decimal(b.size as nat)]),
        object_has(part_body_json(b), "data"@, seq![json_opt_str(opt_view(b.data))]),
{
    assert(part_body_json(b) == json_object(seq![("attachmentId"@, json_opt_str(opt_view(b.attachment_id))), ("size"@, decimal(b.size as nat)), ("data"@, json_opt_str(opt_view(b.data)))]));
    reveal_strlit("attachmentId");
    assert("attachmentId"@ =~= seq!['a', 't', 't', 'a', 'c', 'h', 'm', 'e', 'n', 't', 'I', 'd']);
    reveal_strlit("size");
    assert("size"@ =~= seq!['s', 'i', 'z', 'e']);
    reveal_strlit("data");
    assert("data"@ =~= seq!['d', 'a', 't', 'a']);
    lemma_part_body_json_key(b, "attachmentId"@);
    assert(values_of(seq![("attachmentId"@, json_opt_str(opt_view(b.attachment_id))), ("size"@, decimal(b.size as nat)), ("data"@, json_opt_str(opt_view(b.data)))], "attachmentId"@) =~= seq![json_opt_str(opt_view(b.attachment_id))]);
    lemma_part_body_json_key(b, "size"@);
    assert(values_of(seq![("attachmentId"@, json_opt_str(opt_view(b.attachment_id))), ("size"@, decimal(b.size as nat)), ("data"@, json_opt_str(opt_view(b.data)))], "size"@) =~= seq![decimal(b.size as nat)]);
    lemma_part_body_json_key(b, "data"@);
    assert(values_of(seq![("attachmentId"@, json_opt_str(opt_view(b.attachment_id))), ("size"@, decimal(b.size as nat)), ("data"@, json_opt_str(opt_view(b.data)))], "data"@) =~= seq![json_opt_str(opt_view(b.data))]);
}

proof fn lemma_payload_json_key(p: GmailMessagePayload, k: Seq<char>)
    ensures
        values_of(seq![("partId"@, json_opt_str(opt_view(p.part_id))), ("mimeType"@, json_opt_str(opt_view(p.mime_type))), ("body"@, opt_part_body_json(p.body)), ("filename"@, json_str(p.filename@)), ("headers"@, headers_json(p.headers@)), ("parts"@, json_array(payloads_json(p.parts@)))], k) == (if "partId"@ == k { seq![json_opt_str(opt_view(p.part_id))] } else { Seq::<Seq<char>>::empty() }) + (if "mimeType"@ == k { seq![json_opt_str(opt_view(p.mime_type))] } else { Seq::<Seq<char>>::empty() }) + (if "body"@ == k { seq![opt_part_body_json(p.body)] } else { Seq::<Seq<char>>::empty() }) + (if "filename"@ == k { seq![json_str(p.filename@)] } else { Seq::<Seq<char>>::empty() }) + (if "headers"@ == k { seq![headers_json(p.headers@)] } else { Seq::<Seq<char>>::empty() }) + (if "parts"@ == k { seq![json_array(payloads_json(p.parts@))] } else { Seq::<Seq<char>>::empty() }),
{
    let p0 = seq![("partId"@, json_opt_str(opt_view(p.part_id)))];
    let p1 = seq![("mimeType"@, json_opt_str(opt_view(p.mime_type)))];
    let p2 = seq![("body"@, opt_part_body_json(p.body))];
    let p3 = seq![("filename"@, json_str(p.filename@))];
    let p4 = seq![("headers"@, headers_json(p.headers@))];
    let p5 = seq![("parts"@, json_array(payloads_json(p.parts@)))];
    assert(seq![("partId"@, json_opt_str(opt_view(p.part_id))), ("mimeType"@, json_opt_str(opt_view(p.mime_type))), ("body"@, opt_part_body_json(p.body)), ("filename"@, json_str(p.filename@)), ("headers"@, headers_json(p.headers@)), ("parts"@, json_array(payloads_json(p.parts@)))] =~= p0 + p1 + p2 + p3 + p4 + p5);
    lemma_values_of_concat(p0 + p1 + p2 + p3 + p4, p5, k);
    lemma_values_of_concat(p0 + p1 + p2 + p3, p4, k);
    lemma_values_of_concat(p0 + p1 + p2, p3, k);
    lemma_values_of_concat(p0 + p1, p2, k);
    lemma_values_of_concat(p0, p1, k);
    lemma_pair_values("partId"@, json_opt_str(opt_view(p.part_id)), k);
    lemma_pair_values("mimeType"@, json_opt_str(opt_view(p.mime_type)), k);
    lemma_pair_values("body"@, opt_part_body_json(p.body), k);
    lemma_pair_values("filename"@, json_str(p.filename@), k);
    lemma_pair_values("headers"@, headers_json(p.headers@), k);
    lemma_pair_values("parts"@, json_array(payloads_json(p.parts@)), k);
}

/// The JSON form of a MIME part holds its part id, MIME type, body, file name,
/// headers and sub-parts, each under the API's name for it.
pub proof fn law_payload_json(p: GmailMessagePayload)
    ensures
        object_has(payload_json(p), "partId"@, seq![json_opt_str(opt_view(p.part_id))]),
        object_has(payload_json(p), "mimeType"@, seq![json_opt_str(opt_view(p.mime_type))]),
        object_has(payload_json(p), "body"@, seq![opt_part_body_json(p.body)]),
        object_has(payload_json(p), "filename"@, seq![json_str(p.filename@)]),
        object_has(payload_json(p), "headers"@, seq![headers_json(p.headers@)]),
        object_has(payload_json(p), "parts"@, seq![json_array(payloads_json(p.parts@))]),
{
    assert(payload_json(p) == json_object(seq![("partId"@, json_opt_str(opt_view(p.part_id))), ("mimeType"@, json_opt_str(opt_view(p.mime_type))), ("body"@, opt_part_body_json(p.body)), ("filename"@, json_str(p.filename@)), ("headers"@, headers_json(p.headers@)), ("parts"@, json_array(payloads_json(p.parts@)))]));
    reveal_strlit("partId");
    assert("partId"@ =~= seq!['p', 'a', 'r', 't', 'I', 'd']);
    reveal_strlit("mimeType");
    assert("mimeType"@ =~= seq!['m', 'i', 'm', 'e', 'T', 'y', 'p', 'e']);
    reveal_strlit("body");
    assert("body"@ =~= seq!['b', 'o', 'd', 'y']);
    reveal_strlit("filename");
    assert("filename"@ =~= seq!['f', 'i', 'l', 'e', 'n', 'a', 'm', 'e']);
    reveal_strlit("headers");
    assert("headers"@ =~= seq!['h', 'e', 'a', 'd', 'e', 'r', 's']);
    reveal_strlit("parts");
    assert("parts"@ =~= seq!['p', 'a', 'r', 't', 's']);
    lemma_payload_json_key(p, "partId"@);
    assert(values_of(seq![("partId"@, json_opt_str(opt_view(p.part_id))), ("mimeType"@, json_opt_str(opt_view(p.mime_type))), ("body"@, opt_part_body_json(p.body)), ("filename"@, json_str(p.filename@)), ("headers"@, headers_json(p.headers@)), ("parts"@, json_array(payloads_json(p.parts@)))], "partId"@) =~= seq![json_opt_str(opt_view(p.part_id))]);
    lemma_payload_json_key(p, "mimeType"@);
    assert(values_of(seq![("partId"@, json_opt_str(opt_view(p.part_id))), ("mimeType"@, json_opt_str(opt_view(p.mime_type))), ("body"@, opt_part_body_json(p.body)), ("filename"@, json_str(p.filename@)), ("headers"@, headers_json(p.headers@)), ("parts"@, json_array(payloads_json(p.parts@)))], "mimeType"@) =~= seq![json_opt_str(opt_view(p.mime_type))]);
    lemma_payload_json_key(p, "body"@);
    assert(values_of(seq![("partId"@, json_opt_str(opt_view(p.part_id))), ("mimeType"@, json_opt_str(opt_view(p.mime_type))), ("body"@, opt_part_body_json(p.body)), ("filename"@, json_str(p.filename@)), ("headers"@, headers_json(p.headers@)), ("parts"@, json_array(payloads_json(p.parts@)))], "body"@) =~= seq![opt_part_body_json(p.body)]);
    lemma_payload_json_key(p, "filename"@);
    assert(values_of(seq![("partId"@, json_opt_str(opt_view(p.part_id))), ("mimeType"@, json_opt_str(opt_view(p.mime_type))), ("body"@, opt_part_body_json(p.body)), ("filename"@, json_str(p.filename@)), ("headers"@, headers_json(p.headers@)), ("parts"@, json_array(payloads_json(p.parts@)))], "filename"@) =~= seq![json_str(p.filename@)]);
    lemma_payload_json_key(p, "headers"@);
    assert(values_of(seq![("partId"@, json_opt_str(opt_view(p.part_id))), ("mimeType"@, json_opt_str(opt_view(p.mime_type))), ("body"@, opt_part_body_json(p.body)), ("filename"@, json_str(p.filename@)), ("headers"@, headers_json(p.headers@)), ("parts"@, json_array(payloads_json(p.parts@)))], "headers"@) =~= seq![headers_json(p.headers@)]);
    lemma_payload_json_key(p, "parts"@);
    assert(values_of(seq![("partId"@, json_opt_str(opt_view(p.part_id))), ("mimeType"@, json_opt_str(opt_view(p.mime_type))), ("body"@, opt_part_body_json(p.body)), ("filename"@, json_str(p.filename@)), ("headers"@, headers_json(p.headers@)), ("parts"@, json_array(payloads_json(p.parts@)))], "parts"@) =~= seq![json_array(payloads_json(p.parts@))]);
}

/// The JSON form of a message id.
pub open spec fn message_id_json(m: GmailMessageId) -> Seq<char> {
    json_object(
        seq![("id"@, json_str(m.id@)), ("threadId"@, json_opt_str(opt_view(m.thread_id)))],
    )
}

proof fn lemma_message_id_json_key(m: GmailMessageId, k: Seq<char>)
    ensures
        values_of(seq![("id"@, json_str(m.id@)), ("threadId"@, json_opt_str(opt_view(m.thread_id)))], k) == (if "id"@ == k { seq![json_str(m.id@)] } else { Seq::<Seq<char>>::empty() }) + (if "threadId"@ == k { seq![json_opt_str(opt_view(m.thread_id))] } else { Seq::<Seq<char>>::empty() }),
{
    let p0 = seq![("id"@, json_str(m.id@))];
    let p1 = seq![("threadId"@, json_opt_str(opt_view(m.thread_id)))];
    assert(seq![("id"@, json_str(m.id@)), ("threadId"@, json_opt_str(opt_view(m.thread_id)))] =~= p0 + p1);
    lemma_values_of_concat(p0, p1, k);
    lemma_pair_values("id"@, json_str(m.id@), k);
    lemma_pair_values("threadId"@, json_opt_str(opt_view(m.thread_id)), k);
}

/// The JSON form of a message id holds the id and the thread id, `null` when
/// absent.
pub proof fn law_message_id_json(m: GmailMessageId)
    ensures
        object_has(message_id_json(m), "id"@, seq![json_str(m.id@)]),
        object_has(message_id_json(m), "threadId"@, seq![json_opt_str(opt_view(m.thread_id))]),
{
    assert(message_id_json(m) == json_object(seq![("id"@, json_str(m.id@)), ("threadId"@, json_opt_str(opt_view(m.thread_id)))]));
    reveal_strlit("id");
    assert("id"@ =~= seq!['i', 'd']);
    reveal_strlit("threadId");
    assert("threadId"@ =~= seq!['t', 'h', 'r', 'e', 'a', 'd', 'I', 'd']);
    lemma_message_id_json_key(m, "id"@);
    assert(values_of(seq![("id"@, json_str(m.id@)), ("threadId"@, json_opt_str(opt_view(m.thread_id)))], "id"@) =~= seq![json_str(m.id@)]);
    lemma_message_id_json_key(m, "threadId"@);
    assert(values_of(seq![("id"@, json_str(m.id@)), ("threadId"@, json_opt_str(opt_view(m.thread_id)))], "threadId"@) =~= seq![json_opt_str(opt_view(m.thread_id))]);
}

impl GmailMessageHeader {
    /// The JSON form of the header.
    pub fn to_json(&self) -> (r: String)
        ensures
            r@ == header_json(*self),
    {
        let mut fields: Vec<(String, String)> = Vec::new();
        push_field(&mut fields, "name", json_string(self.name.as_str()));
        push_field(&mut fields, "value", json_string(self.value.as_str()));
        let r = json_object_of(&fields);
        assert(fields_view(fields@) =~= seq![
            ("name"@, json_str(self.name@)),
            ("value"@, json_str(self.value@)),
        ]);
        r
    }
}

/// The JSON array of headers.
pub fn headers_to_json(hs: &Vec<GmailMessageHeader>) -> (r: String)
    ensures
        r@ == headers_json(hs@),
{
    let mut encoded: Vec<String> = Vec::new();
    let mut i: usize = 0;
    while i < hs.len()
        invariant
            i <= hs.len(),
            encoded@.len() == i,
            forall|k: int| 0 <= k < i ==> (#[trigger] encoded@[k])@ == header_json(hs@[k]),
        decreases hs.len() - i,
    {
        encoded.push(hs[i].to_json());
        i += 1;
    }
    assert(strings_view(encoded@) =~= hs@.map_values(|h: GmailMessageHeader| header_json(h)));
    json_array_of(&encoded)
}

impl GmailMessagePartBody {
    /// The JSON form of the part body.
    pub fn to_json(&self) -> (r: String)
        ensures
            r@ == part_body_json(*self),
    {
        let mut fields: Vec<(String, String)> = Vec::new();
        push_field(&mut fields, "attachmentId", json_opt_string(&self.attachment_id));
        push_field(&mut fields, "size", u64_decimal(self.size as u64));
        push_field(&mut fields, "data", json_opt_string(&self.data));
        let r = json_object_of(&fields);
        assert(fields_view(fields@) =~= seq![
            ("attachmentId"@, json_opt_str(opt_view(self.attachment_id))),
            ("size"@, decimal(self.size as nat)),
            ("data"@, json_opt_str(opt_view(self.data))),
        ]);
        r
    }
}

impl GmailMessagePayload {
    /// The JSON form of the part and its sub-parts.
    pub fn to_json(&self) -> (r: String)
        ensures
            r@ == payload_json(*self),
        decreases self,
    {
        let mut encoded: Vec<String> = Vec::new();
        let mut i: usize = 0;
        while i < self.parts.len()
            invariant
                i <= self.parts@.len(),
                strings_view(encoded@) == payloads_json(self.parts@.take(i as int)),
            decreases self.parts.len() - i,
        {
            assert(decreases_to!(self => self.parts@[i as int]));
            let e = self.parts[i].to_json();
            encoded.push(e);
            proof {
                let t = self.parts@.take(i + 1);
                assert(t.drop_last() == self.parts@.take(i as int));
                assert(t.last() == self.parts@[i as int]);
                assert(strings_view(encoded@) =~= payloads_json(t));
            }
            i += 1;
        }
        assert(self.parts@.take(self.parts.len() as int) == self.parts@);
        let parts = json_array_of(&encoded);
        let body = match &self.body {
            Some(b) => b.to_json(),
            None => json_null_text(),
        };
        let mut fields: Vec<(String, String)> = Vec::new();
        push_field(&mut fields, "partId", json_opt_string(&self.part_id));
        push_field(&mut fields, "mimeType", json_opt_string(&self.mime_type));
        push_field(&mut fields, "body", body);
        push_field(&mut fields, "filename", json_string(self.filename.as_str()));
        push_field(&mut fields, "headers", headers_to_json(&self.headers));
        push_field(&mut fields, "parts", parts);
        let r = json_object_of(&fields);
        assert(fields_view(fields@) =~= seq![
            ("partId"@, json_opt_str(opt_view(self.part_id))),
            ("mimeType"@, json_opt_str(opt_view(self.mime_type))),
            ("body"@, opt_part_body_json(self.body)),
            ("filename"@, json_str(self.filename@)),
            ("headers"@, headers_json(self.headers@)),
            ("parts"@, json_array(payloads_json(self.parts@))),
        ]);
        r
    }
}

impl GmailMessage {
    /// The JSON form of the message.
    pub fn to_json(&self) -> (r: String)
        ensures
            r@ == message_json(*self),
    {
        let payload = match &self.payload {
            Some(p) => p.to_json(),
            None => json_null_text(),
        };
        let mut fields: Vec<(String, String)> = Vec::new();
        push_field(&mut fields, "id", json_string(self.id.as_str()));
        push_field(&mut fields, "threadId", json_opt_string(&self.thread_id));
        push_field(&mut fields, "labelIds", json_string_array(self.label_ids.as_slice()));
        push_field(&mut fields, "internalDate", json_opt_string(&self.internal_date));
        push_field(&mut fields, "snippet", json_opt_string(&self.snippet));
        push_field(&mut fields, "payload", payload);
        push_field(&mut fields, "raw", json_opt_string(&self.raw));
        push_field(&mut fields, "sizeEstimate", json_opt_number(self.size_estimate));
        push_field(&mut fields, "historyId", json_opt_string(&self.history_id));
        let r = json_object_of(&fields);
        assert(fields_view(fields@) =~= seq![
            ("id"@, json_str(self.id@)),
            ("threadId"@, json_opt_str(opt_view(self.thread_id))),
            ("labelIds"@, json_str_array(strings_view(self.label_ids@))),
            ("internalDate"@, json_opt_str(opt_view(self.internal_date))),
            ("snippet"@, json_opt_str(opt_view(self.snippet))),
            ("payload"@, opt_payload_json(self.payload)),
            ("raw"@, json_opt_str(opt_view(self.raw))),
            ("sizeEstimate"@, json_opt_u64(self.size_estimate)),
            ("historyId"@, json_opt_str(opt_view(self.history_id))),
        ]);
        r
    }
}

impl GmailMessageId {
    /// The JSON form of the message id.
    pub fn to_json(&self) -> (r: String)
        ensures
            r@ == message_id_json(*self),
    {
        let mut fields: Vec<(String, String)> = Vec::new();
        push_field(&mut fields, "id", json_string(self.id.as_str()));
        push_field(&mut fields, "threadId", json_opt_string(&self.thread_id));
        let r = json_object_of(&fields);
        assert(fields_view(fields@) =~= seq![
            ("id"@, json_str(self.id@)),
            ("threadId"@, json_opt_str(opt_view(self.thread_id))),
        ]);
        r
    }
}

} // verus!
