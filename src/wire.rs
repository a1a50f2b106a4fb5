use vstd::prelude::*;
use vstd::string::StringExecFns;

use crate::message::{MessageBody, MessageBodyView, Priority};
use crate::notification::{Notification, NotificationView};
use crate::text::{list_view, opt_list_view, opt_str_view};

verus! {

/// The JSON string literal (quotes and escapes included) of a text.
pub uninterp spec fn json_quoted(s: Seq<char>) -> Seq<char>;

/// Relies on serde_json's `Display` for `Value::String`: the compact JSON
/// literal of a string, which depends on the text alone.
#[verifier::external_body]
fn quote(s: &str) -> (r: String)
    ensures
        r@ == json_quoted(s@),
{
    serde_json::Value::String(s.to_string()).to_string()
}

/// One member of an encoded JSON object: its key and its encoded value.
#[derive(Debug, PartialEq, Eq)]
pub struct WireField {
    pub key: String,
    pub value: String,
}

impl View for WireField {
    type V = (Seq<char>, Seq<char>);

    open spec fn view(&self) -> (Seq<char>, Seq<char>) {
        (self.key@, self.value@)
    }
}

/// The views of a list of members.
pub open spec fn fields_view(v: Seq<WireField>) -> Seq<(Seq<char>, Seq<char>)> {
    v.map_values(|f: WireField| f@)
}

/// Texts joined by commas.
pub open spec fn join(parts: Seq<Seq<char>>) -> Seq<char>
    decreases parts.len(),
{
    if parts.len() == 0 {
        Seq::empty()
    } else if parts.len() == 1 {
        parts[0]
    } else {
        join(parts.drop_last()) + ","@ + parts.last()
    }
}

/// `"key":value`.
pub open spec fn member_text(field: (Seq<char>, Seq<char>)) -> Seq<char> {
    "\""@ + field.0 + "\":"@ + field.1
}

/// A JSON object with the given members, in order.
pub open spec fn object_text(fields: Seq<(Seq<char>, Seq<char>)>) -> Seq<char> {
    "{"@ + join(fields.map_values(|f: (Seq<char>, Seq<char>)| member_text(f))) + "}"@
}

/// A JSON array of strings.
pub open spec fn list_text(items: Seq<Seq<char>>) -> Seq<char> {
    "["@ + join(items.map_values(|s: Seq<char>| json_quoted(s))) + "]"@
}

/// `true` or `false`.
pub open spec fn bool_text(b: bool) -> Seq<char> {
    if b {
        "true"@
    } else {
        "false"@
    }
}

/// The text of one decimal digit.
pub open spec fn digit_text(d: nat) -> Seq<char> {
    if d == 0 {
        "0"@
    } else if d == 1 {
        "1"@
    } else if d == 2 {
        "2"@
    } else if d == 3 {
        "3"@
    } else if d == 4 {
        "4"@
    } else if d == 5 {
        "5"@
    } else if d == 6 {
        "6"@
    } else if d == 7 {
        "7"@
    } else if d == 8 {
        "8"@
    } else {
        "9"@
    }
}

/// The decimal numeral of a natural number, without leading zeros.
pub open spec fn nat_text(n: nat) -> Seq<char>
    decreases n,
{
    if n < 10 {
        digit_text(n)
    } else {
        nat_text(n / 10) + digit_text(n % 10)
    }
}

/// The decimal numeral of an integer, with `-` before a negative one.
pub open spec fn int_text(i: int) -> Seq<char> {
    if i < 0 {
        "-"@ + nat_text((-i) as nat)
    } else {
        nat_text(i as nat)
    }
}

/// How a priority is written: `"normal"` or `"high"`.
pub open spec fn priority_text(p: Priority) -> Seq<char> {
    match p {
        Priority::Normal => "\"normal\""@,
        Priority::High => "\"high\""@,
    }
}

/// A member for `key` when `value` is present, none otherwise.
pub open spec fn field(key: Seq<char>, value: Option<Seq<char>>) -> Seq<(Seq<char>, Seq<char>)> {
    match value {
        Some(v) => seq![(key, v)],
        None => Seq::empty(),
    }
}

pub open spec fn opt_quoted(o: Option<Seq<char>>) -> Option<Seq<char>> {
    match o {
        Some(s) => Some(json_quoted(s)),
        None => None,
    }
}

pub open spec fn opt_list_text(o: Option<Seq<Seq<char>>>) -> Option<Seq<char>> {
    match o {
        Some(l) => Some(list_text(l)),
        None => None,
    }
}

pub open spec fn opt_bool_text(o: Option<bool>) -> Option<Seq<char>> {
    match o {
        Some(b) => Some(bool_text(b)),
        None => None,
    }
}

pub open spec fn opt_int_text(o: Option<i32>) -> Option<Seq<char>> {
    match o {
        Some(i) => Some(int_text(i as int)),
        None => None,
    }
}

pub open spec fn opt_priority_text(o: Option<Priority>) -> Option<Seq<char>> {
    match o {
        Some(p) => Some(priority_text(p)),
        None => None,
    }
}

/// The members of an encoded notification: one for each attribute that is
/// set, in the order of their keys.
pub open spec fn notification_fields(n: NotificationView) -> Seq<(Seq<char>, Seq<char>)> {
    field("badge"@, opt_quoted(n.badge))
        + field("body"@, opt_quoted(n.body))
        + field("body_loc_args"@, opt_list_text(n.body_loc_args))
        + field("body_loc_key"@, opt_quoted(n.body_loc_key))
        + field("click_action"@, opt_quoted(n.click_action))
        + field("color"@, opt_quoted(n.color))
        + field("icon"@, opt_quoted(n.icon))
        + field("sound"@, opt_quoted(n.sound))
        + field("tag"@, opt_quoted(n.tag))
        + field("title"@, opt_quoted(n.title))
        + field("title_loc_args"@, opt_list_text(n.title_loc_args))
        + field("title_loc_key"@, opt_quoted(n.title_loc_key))
}

/// The JSON text of a notification.
pub open spec fn notification_text(n: NotificationView) -> Seq<char> {
    object_text(notification_fields(n))
}

pub open spec fn opt_notification_text(o: Option<NotificationView>) -> Option<Seq<char>> {
    match o {
        Some(n) => Some(notification_text(n)),
        None => None,
    }
}

/// The members of an encoded message body: one for each option that is set,
/// in the order of their keys, and always `to`.
pub open spec fn body_fields(b: MessageBodyView) -> Seq<(Seq<char>, Seq<char>)> {
    field("collapse_key"@, opt_quoted(b.collapse_key))
        + field("content_available"@, opt_bool_text(b.content_available))
        + field("data"@, b.data)
        + field("delay_while_idle"@, opt_bool_text(b.delay_while_idle))
        + field("dry_run"@, opt_bool_text(b.dry_run))
        + field("notification"@, opt_notification_text(b.notification))
        + field("priority"@, opt_priority_text(b.priority))
        + field("registration_ids"@, opt_list_text(b.registration_ids))
        + field("restricted_package_name"@, opt_quoted(b.restricted_package_name))
        + field("time_to_live"@, opt_int_text(b.time_to_live))
        + field("to"@, Some(json_quoted(b.to)))
}

/// The JSON text of a message body.
pub open spec fn body_text(b: MessageBodyView) -> Seq<char> {
    object_text(body_fields(b))
}

/// The value of the first member named `key`, if there is one: what a reader
/// of the encoded object finds under that key.
pub open spec fn lookup(fields: Seq<(Seq<char>, Seq<char>)>, key: Seq<char>) -> Option<Seq<char>>
    decreases fields.len(),
{
    if fields.len() == 0 {
        None
    } else if fields[0].0 == key {
        Some(fields[0].1)
    } else {
        lookup(fields.drop_first(), key)
    }
}

broadcast proof fn lemma_lookup_concat(
    a: Seq<(Seq<char>, Seq<char>)>,
    b: Seq<(Seq<char>, Seq<char>)>,
    key: Seq<char>,
)
    ensures
        #[trigger] lookup(a + b, key) == (match lookup(a, key) {
            Some(v) => Some(v),
            None => lookup(b, key),
        }),
    decreases a.len(),
{
    if a.len() == 0 {
        assert(a + b == b);
    } else {
        assert((a + b).drop_first() == a.drop_first() + b);
        assert((a + b)[0] == a[0]);
        lemma_lookup_concat(a.drop_first(), b, key);
    }
}

broadcast proof fn lemma_lookup_field(k: Seq<char>, v: Option<Seq<char>>, key: Seq<char>)
    ensures
        #[trigger] lookup(field(k, v), key) == (if k == key { v } else { None }),
{
    reveal_with_fuel(lookup, 2);
    if v is Some {
        assert(field(k, v).drop_first().len() == 0);
    }
}

/// Reading an encoded notification back by key gives exactly what was set:
/// an attribute never set is absent (not present as `null`), and one that is
/// set is present with its encoding.
#[verifier::rlimit(60)]
pub proof fn lemma_notification_fields_by_key(n: NotificationView)
    ensures
        lookup(notification_fields(n), "badge"@) == opt_quoted(n.badge),
        lookup(notification_fields(n), "body"@) == opt_quoted(n.body),
        lookup(notification_fields(n), "body_loc_args"@) == opt_list_text(n.body_loc_args),
        lookup(notification_fields(n), "body_loc_key"@) == opt_quoted(n.body_loc_key),
        lookup(notification_fields(n), "click_action"@) == opt_quoted(n.click_action),
        lookup(notification_fields(n), "color"@) == opt_quoted(n.color),
        lookup(notification_fields(n), "icon"@) == opt_quoted(n.icon),
        lookup(notification_fields(n), "sound"@) == opt_quoted(n.sound),
        lookup(notification_fields(n), "tag"@) == opt_quoted(n.tag),
        lookup(notification_fields(n), "title"@) == opt_quoted(n.title),
        lookup(notification_fields(n), "title_loc_args"@) == opt_list_text(n.title_loc_args),
        lookup(notification_fields(n), "title_loc_key"@) == opt_quoted(n.title_loc_key),
{
    broadcast use lemma_lookup_concat, lemma_lookup_field;

    reveal_strlit("badge");
    reveal_strlit("body");
    reveal_strlit("body_loc_args");
    reveal_strlit("body_loc_key");
    reveal_strlit("click_action");
    reveal_strlit("color");
    reveal_strlit("icon");
    reveal_strlit("sound");
    reveal_strlit("tag");
    reveal_strlit("title");
    reveal_strlit("title_loc_args");
    reveal_strlit("title_loc_key");
    assert("badge"@.len() == 5);
    assert("body"@.len() == 4);
    assert("body_loc_args"@.len() == 13);
    assert("body_loc_key"@.len() == 12);
    assert("click_action"@.len() == 12);
    assert("color"@.len() == 5);
    assert("icon"@.len() == 4);
    assert("sound"@.len() == 5);
    assert("tag"@.len() == 3);
    assert("title"@.len() == 5);
    assert("title_loc_args"@.len() == 14);
    assert("title_loc_key"@.len() == 13);
    assert("badge"@[0] != "color"@[0]);
    assert("badge"@ != "color"@);
    assert("badge"@[0] != "sound"@[0]);
    assert("badge"@ != "sound"@);
    assert("badge"@[0] != "title"@[0]);
    assert("badge"@ != "title"@);
    assert("body"@[0] != "icon"@[0]);
    assert("body"@ != "icon"@);
    assert("body_loc_args"@[0] != "title_loc_key"@[0]);
    assert("body_loc_args"@ != "title_loc_key"@);
    assert("body_loc_key"@[0] != "click_action"@[0]);
    assert("body_loc_key"@ != "click_action"@);
    assert("color"@[0] != "sound"@[0]);
    assert("color"@ != "sound"@);
    assert("color"@[0] != "title"@[0]);
    assert("color"@ != "title"@);
    assert("sound"@[0] != "title"@[0]);
    assert("sound"@ != "title"@);
}

/// Reading an encoded message body back by key gives exactly what was set:
/// an option never set is absent (not present as `null`), one that is set is
/// present with its encoding, and `to` is always present.
pub proof fn lemma_body_fields_by_key(b: MessageBodyView)
    ensures
        lookup(body_fields(b), "collapse_key"@) == opt_quoted(b.collapse_key),
        lookup(body_fields(b), "content_available"@) == opt_bool_text(b.content_available),
        lookup(body_fields(b), "data"@) == b.data,
        lookup(body_fields(b), "delay_while_idle"@) == opt_bool_text(b.delay_while_idle),
        lookup(body_fields(b), "dry_run"@) == opt_bool_text(b.dry_run),
        lookup(body_fields(b), "notification"@) == opt_notification_text(b.notification),
        lookup(body_fields(b), "priority"@) == opt_priority_text(b.priority),
        lookup(body_fields(b), "registration_ids"@) == opt_list_text(b.registration_ids),
        lookup(body_fields(b), "restricted_package_name"@) == opt_quoted(b.restricted_package_name),
        lookup(body_fields(b), "time_to_live"@) == opt_int_text(b.time_to_live),
        lookup(body_fields(b), "to"@) == Some(json_quoted(b.to)),
{
    broadcast use lemma_lookup_concat, lemma_lookup_field;

    reveal_strlit("collapse_key");
    reveal_strlit("content_available");
    reveal_strlit("data");
    reveal_strlit("delay_while_idle");
    reveal_strlit("dry_run");
    reveal_strlit("notification");
    reveal_strlit("priority");
    reveal_strlit("registration_ids");
    reveal_strlit("restricted_package_name");
    reveal_strlit("time_to_live");
    reveal_strlit("to");
    assert("collapse_key"@.len() == 12);
    assert("content_available"@.len() == 17);
    assert("data"@.len() == 4);
    assert("delay_while_idle"@.len() == 16);
    assert("dry_run"@.len() == 7);
    assert("notification"@.len() == 12);
    assert("priority"@.len() == 8);
    assert("registration_ids"@.len() == 16);
    assert("restricted_package_name"@.len() == 23);
    assert("time_to_live"@.len() == 12);
    assert("to"@.len() == 2);
    assert("collapse_key"@[0] != "notification"@[0]);
    assert("collapse_key"@ != "notification"@);
    assert("collapse_key"@[0] != "time_to_live"@[0]);
    assert("collapse_key"@ != "time_to_live"@);
    assert("delay_while_idle"@[0] != "registration_ids"@[0]);
    assert("delay_while_idle"@ != "registration_ids"@);
    assert("notification"@[0] != "time_to_live"@[0]);
    assert("notification"@ != "time_to_live"@);
}

/// A message that fans out to a list of registration tokens carries that
/// list under `registration_ids` and still carries its target under `to`.
pub proof fn lemma_fan_out_keeps_target(b: MessageBodyView)
    requires
        b.registration_ids is Some,
    ensures
        lookup(body_fields(b), "registration_ids"@) == Some(list_text(b.registration_ids->Some_0)),
        lookup(body_fields(b), "to"@) == Some(json_quoted(b.to)),
{
    lemma_body_fields_by_key(b);
}

fn digit_str(d: u64) -> (r: &'static str)
    requires
        d < 10,
    ensures
        r@ == digit_text(d as nat),
{
    if d == 0 {
        "0"
    } else if d == 1 {
        "1"
    } else if d == 2 {
        "2"
    } else if d == 3 {
        "3"
    } else if d == 4 {
        "4"
    } else if d == 5 {
        "5"
    } else if d == 6 {
        "6"
    } else if d == 7 {
        "7"
    } else if d == 8 {
        "8"
    } else {
        "9"
    }
}

fn nat_json(n: u64) -> (r: String)
    ensures
        r@ == nat_text(n as nat),
    decreases n,
{
    if n < 10 {
        digit_str(n).to_string()
    } else {
        let mut s = nat_json(n / 10);
        s.append(digit_str(n % 10));
        s
    }
}

fn int_json(i: i32) -> (r: String)
    ensures
        r@ == int_text(i as int),
{
    if i < 0 {
        let digits = nat_json((-(i as i64)) as u64);
        let mut s = "-".to_string();
        s.append(digits.as_str());
        s
    } else {
        nat_json(i as u64)
    }
}

fn bool_json(b: bool) -> (r: String)
    ensures
        r@ == bool_text(b),
{
    if b {
        "true".to_string()
    } else {
        "false".to_string()
    }
}

fn priority_json(p: Priority) -> (r: String)
    ensures
        r@ == priority_text(p),
{
    match p {
        Priority::Normal => "\"normal\"".to_string(),
        Priority::High => "\"high\"".to_string(),
    }
}

/// Texts joined by commas.
fn join_texts(parts: &Vec<String>) -> (r: String)
    ensures
        r@ == join(list_view(parts@)),
{
    let ghost all = list_view(parts@);
    let mut out = String::new();
    let mut i: usize = 0;
    while i < parts.len()
        invariant
            i <= parts@.len(),
            all == list_view(parts@),
            out@ == join(all.subrange(0, i as int)),
        decreases parts@.len() - i,
    {
        if i > 0 {
            out.append(",");
        }
        out.append(parts[i].as_str());
        proof {
            let p = all.subrange(0, i as int + 1);
            assert(p.drop_last() == all.subrange(0, i as int));
            assert(p.last() == parts@[i as int]@);
            if i == 0 {
                assert(out@ == p[0]);
            }
        }
        i = i + 1;
    }
    assert(all.subrange(0, parts@.len() as int) == all);
    out
}

/// The JSON literal of each string, in order.
fn quote_all(items: &Vec<String>) -> (r: Vec<String>)
    ensures
        list_view(r@) == list_view(items@).map_values(|s: Seq<char>| json_quoted(s)),
{
    let mut out: Vec<String> = Vec::new();
    let mut i: usize = 0;
    while i < items.len()
        invariant
            i <= items@.len(),
            out@.len() == i,
            forall|j: int| 0 <= j < i ==> #[trigger] out@[j]@ == json_quoted(items@[j]@),
        decreases items@.len() - i,
    {
        out.push(quote(items[i].as_str()));
        i = i + 1;
    }
    assert(list_view(out@) =~= list_view(items@).map_values(|s: Seq<char>| json_quoted(s)));
    out
}

/// A JSON array of strings.
fn list_json(items: &Vec<String>) -> (r: String)
    ensures
        r@ == list_text(list_view(items@)),
{
    let quoted = quote_all(items);
    let inner = join_texts(&quoted);
    let mut out = "[".to_string();
    out.append(inner.as_str());
    out.append("]");
    out
}

/// A JSON object with the given members, in order.
fn object_json(fields: &Vec<WireField>) -> (r: String)
    ensures
        r@ == object_text(fields_view(fields@)),
{
    let mut members: Vec<String> = Vec::new();
    let mut i: usize = 0;
    while i < fields.len()
        invariant
            i <= fields@.len(),
            members@.len() == i,
            forall|j: int| 0 <= j < i ==> #[trigger] members@[j]@ == member_text(fields@[j]@),
        decreases fields@.len() - i,
    {
        let mut m = "\"".to_string();
        m.append(fields[i].key.as_str());
        m.append("\":");
        m.append(fields[i].value.as_str());
        members.push(m);
        i = i + 1;
    }
    assert(list_view(members@) =~= fields_view(fields@).map_values(
        |f: (Seq<char>, Seq<char>)| member_text(f),
    ));
    let inner = join_texts(&members);
    let mut out = "{".to_string();
    out.append(inner.as_str());
    out.append("}");
    out
}

fn push_field(fields: &mut Vec<WireField>, key: &str, value: Option<String>)
    ensures
        fields_view(final(fields)@) == fields_view(old(fields)@) + field(key@, opt_str_view(value)),
{
    match value {
        Some(v) => {
            fields.push(WireField { key: key.to_string(), value: v });
            assert(fields_view(final(fields)@) =~= fields_view(old(fields)@) + field(key@, opt_str_view(value)));
        },
        None => {
            assert(fields_view(final(fields)@) =~= fields_view(old(fields)@) + field(key@, opt_str_view(value)));
        },
    }
}

fn quote_opt(o: &Option<String>) -> (r: Option<String>)
    ensures
        opt_str_view(r) == opt_quoted(opt_str_view(*o)),
{
    match o {
        Some(s) => Some(quote(s.as_str())),
        None => None,
    }
}

fn list_opt(o: &Option<Vec<String>>) -> (r: Option<String>)
    ensures
        opt_str_view(r) == opt_list_text(opt_list_view(*o)),
{
    match o {
        Some(l) => Some(list_json(l)),
        None => None,
    }
}

fn bool_opt(o: Option<bool>) -> (r: Option<String>)
    ensures
        opt_str_view(r) == opt_bool_text(o),
{
    match o {
        Some(b) => Some(bool_json(b)),
        None => None,
    }
}

fn int_opt(o: Option<i32>) -> (r: Option<String>)
    ensures
        opt_str_view(r) == opt_int_text(o),
{
    match o {
        Some(i) => Some(int_json(i)),
        None => None,
    }
}

fn priority_opt(o: Option<Priority>) -> (r: Option<String>)
    ensures
        opt_str_view(r) == opt_priority_text(o),
{
    match o {
        Some(p) => Some(priority_json(p)),
        None => None,
    }
}

fn copy_opt(o: &Option<String>) -> (r: Option<String>)
    ensures
        opt_str_view(r) == opt_str_view(*o),
{
    match o {
        Some(s) => Some(s.clone()),
        None => None,
    }
}

impl Notification {
    /// The members of the encoded notification: exactly the attributes set.
    pub fn wire_fields(&self) -> (r: Vec<WireField>)
        ensures
            fields_view(r@) == notification_fields(self@),
    {
        let mut f: Vec<WireField> = Vec::new();
        push_field(&mut f, "badge", quote_opt(&self.badge));
        push_field(&mut f, "body", quote_opt(&self.body));
        push_field(&mut f, "body_loc_args", list_opt(&self.body_loc_args));
        push_field(&mut f, "body_loc_key", quote_opt(&self.body_loc_key));
        push_field(&mut f, "click_action", quote_opt(&self.click_action));
        push_field(&mut f, "color", quote_opt(&self.color));
        push_field(&mut f, "icon", quote_opt(&self.icon));
        push_field(&mut f, "sound", quote_opt(&self.sound));
        push_field(&mut f, "tag", quote_opt(&self.tag));
        push_field(&mut f, "title", quote_opt(&self.title));
        push_field(&mut f, "title_loc_args", list_opt(&self.title_loc_args));
        push_field(&mut f, "title_loc_key", quote_opt(&self.title_loc_key));
        assert(fields_view(f@) =~= notification_fields(self@));
        f
    }

    /// The JSON text of the notification; an attribute left unset does not
    /// appear in it.
    pub fn to_json(&self) -> (r: String)
        ensures
            r@ == notification_text(self@),
    {
        object_json(&self.wire_fields())
    }
}

fn notification_opt(o: &Option<Notification>) -> (r: Option<String>)
    ensures
        opt_str_view(r) == opt_notification_text(crate::message::opt_notification_view(*o)),
{
    match o {
        Some(n) => Some(n.to_json()),
        None => None,
    }
}

impl MessageBody {
    /// The members of the encoded body: exactly the options set, and `to`.
    pub fn wire_fields(&self) -> (r: Vec<WireField>)
        ensures
            fields_view(r@) == body_fields(self@),
    {
        let mut f: Vec<WireField> = Vec::new();
        push_field(&mut f, "collapse_key", quote_opt(&self.collapse_key));
        push_field(&mut f, "content_available", bool_opt(self.content_available));
        push_field(&mut f, "data", copy_opt(&self.data));
        push_field(&mut f, "delay_while_idle", bool_opt(self.delay_while_idle));
        push_field(&mut f, "dry_run", bool_opt(self.dry_run));
        push_field(&mut f, "notification", notification_opt(&self.notification));
        push_field(&mut f, "priority", priority_opt(self.priority));
        push_field(&mut f, "registration_ids", list_opt(&self.registration_ids));
        push_field(&mut f, "restricted_package_name", quote_opt(&self.restricted_package_name));
        push_field(&mut f, "time_to_live", int_opt(self.time_to_live));
        push_field(&mut f, "to", Some(quote(self.to.as_str())));
        assert(fields_view(f@) =~= body_fields(self@));
        f
    }

    /// The JSON text of the body, as sent to the service; an option left
    /// unset does not appear in it.
    pub fn to_json(&self) -> (r: String)
        ensures
            r@ == body_text(self@),
    {
        object_json(&self.wire_fields())
    }
}

} // verus!
