//! Gmail label resource types.

use vstd::prelude::*;
use vstd::string::*;

use crate::text::decimal;
use crate::v1::json::{
    fields_view, json_object, json_object_of, json_str, json_string, lemma_values_of_concat,
    nonempty_str, nonempty_string, object_has, opt_field, opt_view, push_opt_field, some_number,
    some_str, some_string, some_u64, values_of,
};
use crate::v1::query::{lemma_opt_field_values, opt_values};
use crate::v1::rest::messages::GmailMessageListVisibility;

verus! {

/// A Gmail label.
#[derive(Debug, Clone, Default, PartialEq, Eq)]
pub struct GmailLabel {
    pub id: String,
    pub name: String,
    pub label_type: Option<GmailLabelType>,
    pub message_list_visibility: Option<GmailMessageListVisibility>,
    pub label_list_visibility: Option<GmailLabelListVisibility>,
    pub messages_total: Option<u64>,
    pub messages_unread: Option<u64>,
    pub threads_total: Option<u64>,
    pub threads_unread: Option<u64>,
    pub color: Option<GmailLabelColor>,
}

/// Owner of the label: created by Gmail or by the user.
#[derive(Debug, Clone, Copy, PartialEq, Eq)]
pub enum GmailLabelType {
    System,
    User,
}

/// Visibility of the label in the label list of the Gmail web client.
#[derive(Debug, Clone, Copy, PartialEq, Eq)]
pub enum GmailLabelListVisibility {
    LabelShow,
    LabelShowIfUnread,
    LabelHide,
}

/// Text and background colors of a user label, given as hex strings.
#[derive(Debug, Clone, Default, PartialEq, Eq)]
pub struct GmailLabelColor {
    pub text_color: Option<String>,
    pub background_color: Option<String>,
}

/// The labels of a mailbox.
#[derive(Debug, Clone, Default, PartialEq, Eq)]
pub struct GmailLabelsListResponse {
    pub labels: Vec<GmailLabel>,
}

/// Each label type is written as the API names it, the type in camelCase, and
/// distinct types differently.
pub proof fn law_label_type_names(a: GmailLabelType, b: GmailLabelType)
    ensures
        a != b ==> a.name() != b.name(),
        (a == GmailLabelType::System) == (a.name() == "system"@),
        (a == GmailLabelType::User) == (a.name() == "user"@),
{
    reveal_strlit("system");
    assert("system"@ =~= seq!['s', 'y', 's', 't', 'e', 'm']);
    reveal_strlit("user");
    assert("user"@ =~= seq!['u', 's', 'e', 'r']);
}

impl GmailLabelType {
    /// The JSON value of the type.
    pub open spec fn name(self) -> Seq<char> {
        match self {
            GmailLabelType::System => "system"@,
            GmailLabelType::User => "user"@,
        }
    }

    /// The JSON value of the type.
    pub fn as_str(self) -> (r: &'static str)
        ensures
            r@ == self.name(),
    {
        match self {
            GmailLabelType::System => "system",
            GmailLabelType::User => "user",
        }
    }
}

/// Each label-list visibility is written as the API names it, the variant in
/// camelCase, and distinct ones differently.
pub proof fn law_label_list_visibility_names(a: GmailLabelListVisibility, b: GmailLabelListVisibility)
    ensures
        a != b ==> a.name() != b.name(),
        (a == GmailLabelListVisibility::LabelShow) == (a.name() == "labelShow"@),
        (a == GmailLabelListVisibility::LabelShowIfUnread) == (a.name() == "labelShowIfUnread"@),
        (a == GmailLabelListVisibility::LabelHide) == (a.name() == "labelHide"@),
{
    reveal_strlit("labelShow");
    assert("labelShow"@ =~= seq!['l', 'a', 'b', 'e', 'l', 'S', 'h', 'o', 'w']);
    reveal_strlit("labelShowIfUnread");
    assert("labelShowIfUnread"@ =~= seq!['l', 'a', 'b', 'e', 'l', 'S', 'h', 'o', 'w', 'I', 'f', 'U', 'n', 'r', 'e', 'a', 'd']);
    reveal_strlit("labelHide");
    assert("labelHide"@ =~= seq!['l', 'a', 'b', 'e', 'l', 'H', 'i', 'd', 'e']);
}

impl GmailLabelListVisibility {
    /// The JSON value of the visibility.
    pub open spec fn name(self) -> Seq<char> {
        match self {
            GmailLabelListVisibility::LabelShow => "labelShow"@,
            GmailLabelListVisibility::LabelShowIfUnread => "labelShowIfUnread"@,
            GmailLabelListVisibility::LabelHide => "labelHide"@,
        }
    }

    /// The JSON value of the visibility.
    pub fn as_str(self) -> (r: &'static str)
        ensures
            r@ == self.name(),
    {
        match self {
            GmailLabelListVisibility::LabelShow => "labelShow",
            GmailLabelListVisibility::LabelShowIfUnread => "labelShowIfUnread",
            GmailLabelListVisibility::LabelHide => "labelHide",
        }
    }
}

/// The JSON form of a label color: absent colors are left out.
pub open spec fn label_color_json(c: GmailLabelColor) -> Seq<char> {
    json_object(
        opt_field("textColor"@, some_str(opt_view(c.text_color))) + opt_field(
            "backgroundColor"@,
            some_str(opt_view(c.background_color)),
        ),
    )
}

/// The members of the JSON form of a label: empty texts and absent
/// values are left out.
pub open spec fn label_fields(l: GmailLabel) -> Seq<(Seq<char>, Seq<char>)> {
    opt_field("id"@, nonempty_str(l.id@)) + opt_field("name"@, nonempty_str(l.name@)) + opt_field(
        "type"@,
        match l.label_type {
            Some(t) => Some(json_str(t.name())),
            None => None,
        },
    ) + opt_field(
        "messageListVisibility"@,
        match l.message_list_visibility {
            Some(v) => Some(json_str(v.name())),
            None => None,
        },
    ) + opt_field(
        "labelListVisibility"@,
        match l.label_list_visibility {
            Some(v) => Some(json_str(v.name())),
            None => None,
        },
    ) + opt_field("messagesTotal"@, some_u64(l.messages_total)) + opt_field(
        "messagesUnread"@,
        some_u64(l.messages_unread),
    ) + opt_field("threadsTotal"@, some_u64(l.threads_total)) + opt_field(
        "threadsUnread"@,
        some_u64(l.threads_unread),
    ) + opt_field(
        "color"@,
        match l.color {
            Some(c) => Some(label_color_json(c)),
            None => None,
        },
    )
}

proof fn lemma_label_color_json_key(c: GmailLabelColor, k: Seq<char>)
    ensures
        values_of(opt_field("textColor"@, some_str(opt_view(c.text_color))) + opt_field("backgroundColor"@, some_str(opt_view(c.background_color))), k) == (if "textColor"@ == k { opt_values(some_str(opt_view(c.text_color))) } else { Seq::<Seq<char>>::empty() }) + (if "backgroundColor"@ == k { opt_values(some_str(opt_view(c.background_color))) } else { Seq::<Seq<char>>::empty() }),
{
    let p0 = opt_field("textColor"@, some_str(opt_view(c.text_color)));
    let p1 = opt_field("backgroundColor"@, some_str(opt_view(c.background_color)));
    assert(opt_field("textColor"@, some_str(opt_view(c.text_color))) + opt_field("backgroundColor"@, some_str(opt_view(c.background_color))) =~= p0 + p1);
    lemma_values_of_concat(p0, p1, k);
    lemma_opt_field_values("textColor"@, some_str(opt_view(c.text_color)), k);
    lemma_opt_field_values("backgroundColor"@, some_str(opt_view(c.background_color)), k);
}

/// The JSON form of a label color has a `textColor` member exactly when a text
/// color is given, holding it as a string, and likewise a `backgroundColor`
/// member for the background color.
pub proof fn law_label_color_json(c: GmailLabelColor)
    ensures
        object_has(label_color_json(c), "textColor"@, match c.text_color { Some(x) => seq![json_str(x@)], None => Seq::<Seq<char>>::empty() }),
        object_has(label_color_json(c), "backgroundColor"@, match c.background_color { Some(x) => seq![json_str(x@)], None => Seq::<Seq<char>>::empty() }),
{
    assert(label_color_json(c) == json_object(opt_field("textColor"@, some_str(opt_view(c.text_color))) + opt_field("backgroundColor"@, some_str(opt_view(c.background_color)))));
    reveal_strlit("textColor");
    assert("textColor"@ =~= seq!['t', 'e', 'x', 't', 'C', 'o', 'l', 'o', 'r']);
    reveal_strlit("backgroundColor");
    assert("backgroundColor"@ =~= seq!['b', 'a', 'c', 'k', 'g', 'r', 'o', 'u', 'n', 'd', 'C', 'o', 'l', 'o', 'r']);
    lemma_label_color_json_key(c, "textColor"@);
    assert(values_of(opt_field("textColor"@, some_str(opt_view(c.text_color))) + opt_field("backgroundColor"@, some_str(opt_view(c.background_color))), "textColor"@) =~= match c.text_color { Some(x) => seq![json_str(x@)], None => Seq::<Seq<char>>::empty() });
    lemma_label_color_json_key(c, "backgroundColor"@);
    assert(values_of(opt_field("textColor"@, some_str(opt_view(c.text_color))) + opt_field("backgroundColor"@, some_str(opt_view(c.background_color))), "backgroundColor"@) =~= match c.background_color { Some(x) => seq![json_str(x@)], None => Seq::<Seq<char>>::empty() });
}

proof fn lemma_label_json_key(l: GmailLabel, k: Seq<char>)
    ensures
        values_of(label_fields(l), k) == (if "id"@ == k { opt_values(nonempty_str(l.id@)) } else { Seq::<Seq<char>>::empty() }) + (if "name"@ == k { opt_values(nonempty_str(l.name@)) } else { Seq::<Seq<char>>::empty() }) + (if "type"@ == k { opt_values(match l.label_type { Some(t) => Some(json_str(t.name())), None => None }) } else { Seq::<Seq<char>>::empty() }) + (if "messageListVisibility"@ == k { opt_values(match l.message_list_visibility { Some(v) => Some(json_str(v.name())), None => None }) } else { Seq::<Seq<char>>::empty() }) + (if "labelListVisibility"@ == k { opt_values(match l.label_list_visibility { Some(v) => Some(json_str(v.name())), None => None }) } else { Seq::<Seq<char>>::empty() }) + (if "messagesTotal"@ == k { opt_values(some_u64(l.messages_total)) } else { Seq::<Seq<char>>::empty() }) + (if "messagesUnread"@ == k { opt_values(some_u64(l.messages_unread)) } else { Seq::<Seq<char>>::empty() }) + (if "threadsTotal"@ == k { opt_values(some_u64(l.threads_total)) } else { Seq::<Seq<char>>::empty() }) + (if "threadsUnread"@ == k { opt_values(some_u64(l.threads_unread)) } else { Seq::<Seq<char>>::empty() }) + (if "color"@ == k { opt_values(match l.color { Some(c) => Some(label_color_json(c)), None => None }) } else { Seq::<Seq<char>>::empty() }),
{
    let p0 = opt_field("id"@, nonempty_str(l.id@));
    let p1 = opt_field("name"@, nonempty_str(l.name@));
    let p2 = opt_field("type"@, match l.label_type { Some(t) => Some(json_str(t.name())), None => None });
    let p3 = opt_field("messageListVisibility"@, match l.message_list_visibility { Some(v) => Some(json_str(v.name())), None => None });
    let p4 = opt_field("labelListVisibility"@, match l.label_list_visibility { Some(v) => Some(json_str(v.name())), None => None });
    let p5 = opt_field("messagesTotal"@, some_u64(l.messages_total));
    let p6 = opt_field("messagesUnread"@, some_u64(l.messages_unread));
    let p7 = opt_field("threadsTotal"@, some_u64(l.threads_total));
    let p8 = opt_field("threadsUnread"@, some_u64(l.threads_unread));
    let p9 = opt_field("color"@, match l.color { Some(c) => Some(label_color_json(c)), None => None });
    assert(label_fields(l) =~= p0 + p1 + p2 + p3 + p4 + p5 + p6 + p7 + p8 + p9);
    lemma_values_of_concat(p0 + p1 + p2 + p3 + p4 + p5 + p6 + p7 + p8, p9, k);
    lemma_values_of_concat(p0 + p1 + p2 + p3 + p4 + p5 + p6 + p7, p8, k);
    lemma_values_of_concat(p0 + p1 + p2 + p3 + p4 + p5 + p6, p7, k);
    lemma_values_of_concat(p0 + p1 + p2 + p3 + p4 + p5, p6, k);
    lemma_values_of_concat(p0 + p1 + p2 + p3 + p4, p5, k);
    lemma_values_of_concat(p0 + p1 + p2 + p3, p4, k);
    lemma_values_of_concat(p0 + p1 + p2, p3, k);
    lemma_values_of_concat(p0 + p1, p2, k);
    lemma_values_of_concat(p0, p1, k);
    lemma_opt_field_values("id"@, nonempty_str(l.id@), k);
    lemma_opt_field_values("name"@, nonempty_str(l.name@), k);
    lemma_opt_field_values("type"@, match l.label_type { Some(t) => Some(json_str(t.name())), None => None }, k);
    lemma_opt_field_values("messageListVisibility"@, match l.message_list_visibility { Some(v) => Some(json_str(v.name())), None => None }, k);
    lemma_opt_field_values("labelListVisibility"@, match l.label_list_visibility { Some(v) => Some(json_str(v.name())), None => None }, k);
    lemma_opt_field_values("messagesTotal"@, some_u64(l.messages_total), k);
    lemma_opt_field_values("messagesUnread"@, some_u64(l.messages_unread), k);
    lemma_opt_field_values("threadsTotal"@, some_u64(l.threads_total), k);
    lemma_opt_field_values("threadsUnread"@, some_u64(l.threads_unread), k);
    lemma_opt_field_values("color"@, match l.color { Some(c) => Some(label_color_json(c)), None => None }, k);
}

/// The JSON form of a label has one member per field that is set, named as the
/// API names it: the id and name when not empty, the type and the two
/// visibilities by their names, the four counts in decimal, and the color as
/// its JSON object; a field that is not set gives no member.
pub proof fn law_label_json(l: GmailLabel)
    ensures
        object_has(label_json(l), "id"@, if l.id@.len() == 0 { Seq::<Seq<char>>::empty() } else { seq![json_str(l.id@)] }),
        object_has(label_json(l), "name"@, if l.name@.len() == 0 { Seq::<Seq<char>>::empty() } else { seq![json_str(l.name@)] }),
        object_has(label_json(l), "type"@, match l.label_type { Some(t) => seq![json_str(t.name())], None => Seq::<Seq<char>>::empty() }),
        object_has(label_json(l), "messageListVisibility"@, match l.message_list_visibility { Some(v) => seq![json_str(v.name())], None => Seq::<Seq<char>>::empty() }),
        object_has(label_json(l), "labelListVisibility"@, match l.label_list_visibility { Some(v) => seq![json_str(v.name())], None => Seq::<Seq<char>>::empty() }),
        object_has(label_json(l), "messagesTotal"@, match l.messages_total { Some(n) => seq![decimal(n as nat)], None => Seq::<Seq<char>>::empty() }),
        object_has(label_json(l), "messagesUnread"@, match l.messages_unread { Some(n) => seq![decimal(n as nat)], None => Seq::<Seq<char>>::empty() }),
        object_has(label_json(l), "threadsTotal"@, match l.threads_total { Some(n) => seq![decimal(n as nat)], None => Seq::<Seq<char>>::empty() }),
        object_has(label_json(l), "threadsUnread"@, match l.threads_unread { Some(n) => seq![decimal(n as nat)], None => Seq::<Seq<char>>::empty() }),
        object_has(label_json(l), "color"@, match l.color { Some(c) => seq![label_color_json(c)], None => Seq::<Seq<char>>::empty() }),
{
    assert(label_json(l) == json_object(label_fields(l)));
    reveal_strlit("id");
    assert("id"@ =~= seq!['i', 'd']);
    reveal_strlit("name");
    assert("name"@ =~= seq!['n', 'a', 'm', 'e']);
    reveal_strlit("type");
    assert("type"@ =~= seq!['t', 'y', 'p', 'e']);
    reveal_strlit("messageListVisibility");
    assert("messageListVisibility"@ =~= seq!['m', 'e', 's', 's', 'a', 'g', 'e', 'L', 'i', 's', 't', 'V', 'i', 's', 'i', 'b', 'i', 'l', 'i', 't', 'y']);
    reveal_strlit("labelListVisibility");
    assert("labelListVisibility"@ =~= seq!['l', 'a', 'b', 'e', 'l', 'L', 'i', 's', 't', 'V', 'i', 's', 'i', 'b', 'i', 'l', 'i', 't', 'y']);
    reveal_strlit("messagesTotal");
    assert("messagesTotal"@ =~= seq!['m', 'e', 's', 's', 'a', 'g', 'e', 's', 'T', 'o', 't', 'a', 'l']);
    reveal_strlit("messagesUnread");
    assert("messagesUnread"@ =~= seq!['m', 'e', 's', 's', 'a', 'g', 'e', 's', 'U', 'n', 'r', 'e', 'a', 'd']);
    reveal_strlit("threadsTotal");
    assert("threadsTotal"@ =~= seq!['t', 'h', 'r', 'e', 'a', 'd', 's', 'T', 'o', 't', 'a', 'l']);
    reveal_strlit("threadsUnread");
    assert("threadsUnread"@ =~= seq!['t', 'h', 'r', 'e', 'a', 'd', 's', 'U', 'n', 'r', 'e', 'a', 'd']);
    reveal_strlit("color");
    assert("color"@ =~= seq!['c', 'o', 'l', 'o', 'r']);
    lemma_label_json_key(l, "id"@);
    assert(values_of(label_fields(l), "id"@) =~= if l.id@.len() == 0 { Seq::<Seq<char>>::empty() } else { seq![json_str(l.id@)] });
    lemma_label_json_key(l, "name"@);
    assert(values_of(label_fields(l), "name"@) =~= if l.name@.len() == 0 { Seq::<Seq<char>>::empty() } else { seq![json_str(l.name@)] });
    lemma_label_json_key(l, "type"@);
    assert(values_of(label_fields(l), "type"@) =~= match l.label_type { Some(t) => seq![json_str(t.name())], None => Seq::<Seq<char>>::empty() });
    lemma_label_json_key(l, "messageListVisibility"@);
    assert(values_of(label_fields(l), "messageListVisibility"@) =~= match l.message_list_visibility { Some(v) => seq![json_str(v.name())], None => Seq::<Seq<char>>::empty() });
    lemma_label_json_key(l, "labelListVisibility"@);
    assert(values_of(label_fields(l), "labelListVisibility"@) =~= match l.label_list_visibility { Some(v) => seq![json_str(v.name())], None => Seq::<Seq<char>>::empty() });
    lemma_label_json_key(l, "messagesTotal"@);
    assert(values_of(label_fields(l), "messagesTotal"@) =~= match l.messages_total { Some(n) => seq![decimal(n as nat)], None => Seq::<Seq<char>>::empty() });
    lemma_label_json_key(l, "messagesUnread"@);
    assert(values_of(label_fields(l), "messagesUnread"@) =~= match l.messages_unread { Some(n) => seq![decimal(n as nat)], None => Seq::<Seq<char>>::empty() });
    lemma_label_json_key(l, "threadsTotal"@);
    assert(values_of(label_fields(l), "threadsTotal"@) =~= match l.threads_total { Some(n) => seq![decimal(n as nat)], None => Seq::<Seq<char>>::empty() });
    lemma_label_json_key(l, "threadsUnread"@);
    assert(values_of(label_fields(l), "threadsUnread"@) =~= match l.threads_unread { Some(n) => seq![decimal(n as nat)], None => Seq::<Seq<char>>::empty() });
    lemma_label_json_key(l, "color"@);
    assert(values_of(label_fields(l), "color"@) =~= match l.color { Some(c) => seq![label_color_json(c)], None => Seq::<Seq<char>>::empty() });
}

/// The JSON form of a label.
pub open spec fn label_json(l: GmailLabel) -> Seq<char> {
    json_object(label_fields(l))
}

impl GmailLabelColor {
    /// The JSON form of the color.
    pub fn to_json(&self) -> (r: String)
        ensures
            r@ == label_color_json(*self),
    {
        let mut fields: Vec<(String, String)> = Vec::new();
        push_opt_field(&mut fields, "textColor", some_string(&self.text_color));
        push_opt_field(&mut fields, "backgroundColor", some_string(&self.background_color));
        json_object_of(&fields)
    }
}

impl GmailLabel {
    /// The JSON form of the label.
    pub fn to_json(&self) -> (r: String)
        ensures
            r@ == label_json(*self),
    {
        let mut fields: Vec<(String, String)> = Vec::new();
        push_opt_field(&mut fields, "id", nonempty_string(self.id.as_str()));
        push_opt_field(&mut fields, "name", nonempty_string(self.name.as_str()));
        let label_type = match self.label_type {
            Some(t) => Some(json_string(t.as_str())),
            None => None,
        };
        push_opt_field(&mut fields, "type", label_type);
        let message_list = match self.message_list_visibility {
            Some(v) => Some(json_string(v.as_str())),
            None => None,
        };
        push_opt_field(&mut fields, "messageListVisibility", message_list);
        let label_list = match self.label_list_visibility {
            Some(v) => Some(json_string(v.as_str())),
            None => None,
        };
        push_opt_field(&mut fields, "labelListVisibility", label_list);
        push_opt_field(&mut fields, "messagesTotal", some_number(self.messages_total));
        push_opt_field(&mut fields, "messagesUnread", some_number(self.messages_unread));
        push_opt_field(&mut fields, "threadsTotal", some_number(self.threads_total));
        push_opt_field(&mut fields, "threadsUnread", some_number(self.threads_unread));
        let color = match &self.color {
            Some(c) => Some(c.to_json()),
            None => None,
        };
        push_opt_field(&mut fields, "color", color);
        assert(fields_view(fields@) =~= label_fields(*self));
        json_object_of(&fields)
    }
}

} // verus!
