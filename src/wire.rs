//! The JSON form of events: one object per event, whose members follow a
//! fixed order, with a member for an optional field only where it is present.

use vstd::prelude::*;
use vstd::string::*;
use crate::correlation::uuid_text;
use crate::detail::{DetailEntries, MessageDetail};
use crate::event::{default_event, event_type_name, response_name, EventModel};
use crate::json::{
    array_text, decimal, json_escaped, json_quoted, members_text, object_text, plain_quoted, quoted,
    signed_decimal, Member,
};

verus! {

/// A place in an event's JSON object: the key, and the text of the value
/// where the field is present.
pub type Slot = (Seq<char>, Option<Seq<char>>);

/// The members of a message detail: each pair with its key and value quoted.
pub open spec fn detail_members(d: DetailEntries) -> Seq<Member> {
    d.map_values(|p: (Seq<char>, Seq<char>)| (json_quoted(p.0), json_quoted(p.1)))
}

/// The JSON object of a message detail.
pub open spec fn detail_json(d: DetailEntries) -> Seq<char> {
    object_text(detail_members(d))
}

/// The places of an event's JSON object, in their fixed order.
pub open spec fn event_slots(e: EventModel) -> Seq<Slot> {
    seq![
        ("routingKey"@, Some(json_quoted(e.routing_key))),
        ("type"@, Some(plain_quoted(event_type_name(e.event_type)))),
        ("message"@, Some(json_quoted(e.message))),
        ("correlationId"@, match e.correlation_id {
            Some(b) => Some(plain_quoted(uuid_text(b))),
            None => None,
        }),
        ("timestamp"@, match e.timestamp {
            Some(t) => Some(signed_decimal(t as int)),
            None => None,
        }),
        ("messageDetail"@, match e.message_detail {
            Some(d) => Some(detail_json(d)),
            None => None,
        }),
        ("host"@, opt_quoted(e.host)),
        ("applicationVersion"@, opt_quoted(e.application_version)),
        ("dataCenter"@, opt_quoted(e.data_center)),
        ("clientHostName"@, opt_quoted(e.client_host_name)),
        ("destinationHostName"@, opt_quoted(e.destination_host_name)),
        ("destinationPath"@, opt_quoted(e.destination_path)),
        ("startTimestamp"@, opt_decimal(e.start_timestamp)),
        ("finishTimestamp"@, opt_decimal(e.finish_timestamp)),
        ("duration"@, opt_decimal(e.duration)),
        ("durationInMs"@, opt_decimal(e.duration_in_ms)),
        ("responseCode"@, match e.response_code {
            Some(c) => Some(decimal(c as nat)),
            None => None,
        }),
        ("response"@, match e.response {
            Some(r) => Some(plain_quoted(response_name(r))),
            None => None,
        }),
    ]
}

/// An optional string as a JSON string literal.
pub open spec fn opt_quoted(o: Option<Seq<char>>) -> Option<Seq<char>> {
    match o {
        Some(s) => Some(json_quoted(s)),
        None => None,
    }
}

/// An optional unsigned integer in decimal.
pub open spec fn opt_decimal(o: Option<u64>) -> Option<Seq<char>> {
    match o {
        Some(n) => Some(decimal(n as nat)),
        None => None,
    }
}

/// The members of the places that hold a value, in order.
pub open spec fn present_members(slots: Seq<Slot>) -> Seq<Member>
    decreases slots.len(),
{
    if slots.len() == 0 {
        Seq::empty()
    } else {
        let rest = present_members(slots.drop_last());
        match slots.last().1 {
            Some(v) => rest.push((plain_quoted(slots.last().0), v)),
            None => rest,
        }
    }
}

/// The members of an event's JSON object.
pub open spec fn event_members(e: EventModel) -> Seq<Member> {
    present_members(event_slots(e))
}

/// The JSON object of an event.
pub open spec fn event_json(e: EventModel) -> Seq<char> {
    object_text(event_members(e))
}

/// The JSON array of a batch of events.
pub open spec fn events_json(es: Seq<EventModel>) -> Seq<char> {
    array_text(es.map_values(|e: EventModel| event_json(e)))
}

/// A text that is no longer empty after a push keeps the commas right.
proof fn lemma_members_push(ms: Seq<Member>, m: Member)
    requires
        ms.len() > 0,
    ensures
        members_text(ms.push(m)) == members_text(ms) + seq![','] + crate::json::member_text(m),
{
    assert(ms.push(m).drop_last() =~= ms);
}

/// Appends the member of place `i` where it holds a value.
pub(crate) fn push_slot(
    out: &mut String,
    first: bool,
    name: &str,
    value: Option<String>,
    Ghost(slots): Ghost<Seq<Slot>>,
    i: usize,
)
    requires
        i < slots.len(),
        slots[i as int].0 == name@,
        slots[i as int].1 == crate::event::opt_text(value),
        old(out)@ == seq!['{'] + members_text(present_members(slots.take(i as int))),
        first <==> present_members(slots.take(i as int)).len() == 0,
    ensures
        final(out)@ == seq!['{'] + members_text(present_members(slots.take(i + 1))),
        present_members(slots.take(i + 1)).len() == 0 <==> (first && value is None),
{
    let ghost ms = present_members(slots.take(i as int));
    proof {
        assert(slots.take(i + 1).drop_last() =~= slots.take(i as int));
        assert(slots.take(i + 1).last() == slots[i as int]);
    }
    match value {
        Some(v) => {
            let ghost m: Member = (plain_quoted(name@), v@);
            if !first {
                out.append(",");
            }
            out.append("\"");
            out.append(name);
            out.append("\":");
            out.append(v.as_str());
            proof {
                reveal_strlit(",");
                reveal_strlit("\"");
                reveal_strlit("\":");
                if first {
                    assert(ms.push(m) =~= seq![m]);
                } else {
                    lemma_members_push(ms, m);
                }
                assert(out@ =~= seq!['{'] + members_text(ms.push(m)));
            }
        },
        None => {},
    }
}

/// The JSON object of a message detail.
pub fn detail_to_json(d: &MessageDetail) -> (r: String)
    ensures
        r@ == detail_json(d@),
{
    let ghost ms = detail_members(d@);
    let mut out = String::new();
    out.append("{");
    proof {
        reveal_strlit("{");
        assert(ms.take(0) =~= Seq::<Member>::empty());
    }
    let n = d.len();
    let mut i: usize = 0;
    while i < n
        invariant
            i <= n == d@.len() == ms.len(),
            ms == detail_members(d@),
            out@ == seq!['{'] + members_text(ms.take(i as int)),
        decreases n - i,
    {
        let (k, v) = d.entry(i);
        if i > 0 {
            out.append(",");
        }
        let kq = quoted(k);
        let vq = quoted(v);
        out.append(kq.as_str());
        out.append(":");
        out.append(vq.as_str());
        proof {
            reveal_strlit(",");
            reveal_strlit(":");
            let m: Member = (kq@, vq@);
            assert(ms[i as int] == m);
            assert(ms.take(i + 1) =~= ms.take(i as int).push(m));
            if i > 0 {
                lemma_members_push(ms.take(i as int), m);
            } else {
                assert(ms.take(i as int).push(m) =~= seq![m]);
            }
            assert(out@ =~= seq!['{'] + members_text(ms.take(i + 1)));
        }
        i = i + 1;
    }
    out.append("}");
    proof {
        reveal_strlit("}");
        assert(ms.take(n as int) =~= ms);
        assert(out@ =~= detail_json(d@));
    }
    out
}

/// The keys of an event's JSON object, in order.
pub open spec fn member_keys(e: EventModel) -> Seq<Seq<char>> {
    event_members(e).map_values(|m: Member| m.0)
}

/// The names of all places of an event's JSON object, in their fixed order.
pub open spec fn schema_names() -> Seq<Seq<char>> {
    seq![
        "routingKey"@,
        "type"@,
        "message"@,
        "correlationId"@,
        "timestamp"@,
        "messageDetail"@,
        "host"@,
        "applicationVersion"@,
        "dataCenter"@,
        "clientHostName"@,
        "destinationHostName"@,
        "destinationPath"@,
        "startTimestamp"@,
        "finishTimestamp"@,
        "duration"@,
        "durationInMs"@,
        "responseCode"@,
        "response"@,
    ]
}

/// Every optional field of the event is present.
pub open spec fn fully_populated(e: EventModel) -> bool {
    &&& e.correlation_id is Some
    &&& e.timestamp is Some
    &&& e.message_detail is Some
    &&& e.host is Some
    &&& e.application_version is Some
    &&& e.data_center is Some
    &&& e.client_host_name is Some
    &&& e.destination_host_name is Some
    &&& e.destination_path is Some
    &&& e.start_timestamp is Some
    &&& e.finish_timestamp is Some
    &&& e.duration is Some
    &&& e.duration_in_ms is Some
    &&& e.response_code is Some
    &&& e.response is Some
}

/// Some place holds the value of `m` and has its key as quoted name.
pub open spec fn member_of_present_slot(slots: Seq<Slot>, m: Member) -> bool {
    exists|i: int|
        0 <= i < slots.len() && (#[trigger] slots[i]).1 == Some(m.1) && m.0 == plain_quoted(
            slots[i].0,
        )
}

/// Each present member is the quoted name and the value of a place that
/// holds a value.
proof fn lemma_member_keys_from_slots(slots: Seq<Slot>)
    ensures
        forall|k: int|
            0 <= k < present_members(slots).len() ==> member_of_present_slot(
                slots,
                #[trigger] present_members(slots)[k],
            ),
    decreases slots.len(),
{
    if slots.len() > 0 {
        let rest = slots.drop_last();
        lemma_member_keys_from_slots(rest);
        assert forall|k: int| 0 <= k < present_members(slots).len() implies member_of_present_slot(
            slots,
            #[trigger] present_members(slots)[k],
        ) by {
            if k < present_members(rest).len() {
                assert(present_members(slots)[k] == present_members(rest)[k]);
                assert(member_of_present_slot(rest, present_members(rest)[k]));
                let i = choose|i: int|
                    0 <= i < rest.len() && (#[trigger] rest[i]).1 == Some(present_members(rest)[k].1)
                        && present_members(rest)[k].0 == plain_quoted(rest[i].0);
                assert(slots[i] == rest[i]);
            } else {
                assert(slots[slots.len() - 1] == slots.last());
            }
        }
    }
}

/// Where every place holds a value, the keys are the quoted names of all
/// places, in order.
proof fn lemma_all_slots_present(slots: Seq<Slot>)
    requires
        forall|i: int| 0 <= i < slots.len() ==> (#[trigger] slots[i]).1 is Some,
    ensures
        present_members(slots).map_values(|m: Member| m.0) == slots.map_values(
            |s: Slot| plain_quoted(s.0),
        ),
    decreases slots.len(),
{
    if slots.len() > 0 {
        let rest = slots.drop_last();
        assert forall|i: int| 0 <= i < rest.len() implies (#[trigger] rest[i]).1 is Some by {
            assert(rest[i] == slots[i]);
        }
        lemma_all_slots_present(rest);
        assert(slots.last() == slots[slots.len() - 1]);
        let pm = present_members(rest);
        assert(present_members(slots) == pm.push((plain_quoted(slots.last().0), slots.last().1->0)));
        assert(slots =~= rest.push(slots.last()));
        let a = present_members(slots).map_values(|m: Member| m.0);
        let b = slots.map_values(|s: Slot| plain_quoted(s.0));
        let a0 = pm.map_values(|m: Member| m.0);
        let b0 = rest.map_values(|s: Slot| plain_quoted(s.0));
        assert(a0.len() == b0.len());
        assert(a.len() == b.len());
        assert forall|i: int| 0 <= i < a.len() implies a[i] == b[i] by {
            if i < a0.len() {
                assert(a0[i] == b0[i]);
                assert(a[i] == a0[i]);
                assert(b[i] == b0[i]);
            }
        }
        assert(present_members(slots).map_values(|m: Member| m.0) =~= slots.map_values(
            |s: Slot| plain_quoted(s.0),
        ));
    }
}

/// The names of the places are those of the schema, in order, and no two
/// are alike.
proof fn lemma_slot_names(e: EventModel)
    ensures
        event_slots(e).map_values(|s: Slot| s.0) == schema_names(),
        forall|i: int, j: int|
            0 <= i < j < 18 ==> #[trigger] schema_names()[i] != #[trigger] schema_names()[j],
{
    assert(event_slots(e).map_values(|s: Slot| s.0) =~= schema_names());
    reveal_strlit("routingKey");
    reveal_strlit("type");
    reveal_strlit("message");
    reveal_strlit("correlationId");
    reveal_strlit("timestamp");
    reveal_strlit("messageDetail");
    reveal_strlit("host");
    reveal_strlit("applicationVersion");
    reveal_strlit("dataCenter");
    reveal_strlit("clientHostName");
    reveal_strlit("destinationHostName");
    reveal_strlit("destinationPath");
    reveal_strlit("startTimestamp");
    reveal_strlit("finishTimestamp");
    reveal_strlit("duration");
    reveal_strlit("durationInMs");
    reveal_strlit("responseCode");
    reveal_strlit("response");
    let n = schema_names();
    assert forall|i: int, j: int| 0 <= i < j < 18 implies #[trigger] n[i] != #[trigger] n[j] by {
        if n[i].len() == n[j].len() {
            assert(n[i][0] != n[j][0]);
        }
    }
}

/// Places past `n` that hold no value add no member.
proof fn lemma_trailing_absent(slots: Seq<Slot>, n: int)
    requires
        0 <= n <= slots.len(),
        forall|i: int| n <= i < slots.len() ==> (#[trigger] slots[i]).1 is None,
    ensures
        present_members(slots) == present_members(slots.take(n)),
    decreases slots.len(),
{
    if slots.len() > n {
        let rest = slots.drop_last();
        assert forall|i: int| n <= i < rest.len() implies (#[trigger] rest[i]).1 is None by {
            assert(rest[i] == slots[i]);
        }
        lemma_trailing_absent(rest, n);
        assert(rest.take(n) =~= slots.take(n));
        assert(slots.last() == slots[slots.len() - 1]);
    } else {
        assert(slots.take(n) =~= slots);
    }
}

/// A default event is written as the object of its routing key, its kind
/// and its message alone: `{"routingKey":"","type":"INFO","message":""}`.
pub proof fn lemma_default_event_json()
    ensures
        event_json(default_event()) == "{\"routingKey\":\"\",\"type\":\"INFO\",\"message\":\"\"}"@,
{
    let e = default_event();
    let slots = event_slots(e);
    assert forall|i: int| 3 <= i < slots.len() implies (#[trigger] slots[i]).1 is None by {}
    lemma_trailing_absent(slots, 3);
    reveal_with_fuel(present_members, 4);
    reveal_with_fuel(members_text, 4);
    let t = slots.take(3);
    assert(t.drop_last() =~= slots.take(2));
    assert(t.drop_last().drop_last() =~= slots.take(1));
    assert(t.drop_last().drop_last().drop_last() =~= slots.take(0));
    reveal_with_fuel(json_escaped, 1);
    reveal_strlit("routingKey");
    reveal_strlit("type");
    reveal_strlit("message");
    reveal_strlit("INFO");
    reveal_strlit("{\"routingKey\":\"\",\"type\":\"INFO\",\"message\":\"\"}");
    let ms = event_members(e);
    assert(ms =~= seq![
        (plain_quoted("routingKey"@), json_quoted(Seq::empty())),
        (plain_quoted("type"@), plain_quoted("INFO"@)),
        (plain_quoted("message"@), json_quoted(Seq::empty())),
    ]);
    assert(json_quoted(Seq::empty()) =~= seq!['"', '"']);
    assert(event_json(e) =~= "{\"routingKey\":\"\",\"type\":\"INFO\",\"message\":\"\"}"@);
}

/// A place whose optional field is absent leaves no member with its key:
/// absent fields are omitted, never written as `null`.
pub proof fn lemma_absent_field_omitted(e: EventModel, j: int)
    requires
        0 <= j < 18,
        event_slots(e)[j].1 is None,
    ensures
        !member_keys(e).contains(plain_quoted(schema_names()[j])),
{
    let slots = event_slots(e);
    lemma_slot_names(e);
    lemma_member_keys_from_slots(slots);
    let key = plain_quoted(schema_names()[j]);
    if member_keys(e).contains(key) {
        let k = choose|k: int| 0 <= k < member_keys(e).len() && member_keys(e)[k] == key;
        assert(member_keys(e)[k] == present_members(slots)[k].0);
        assert(member_of_present_slot(slots, present_members(slots)[k]));
        let i = choose|i: int|
            0 <= i < slots.len() && (#[trigger] slots[i]).1 == Some(present_members(slots)[k].1)
                && present_members(slots)[k].0 == plain_quoted(slots[i].0);
        assert(slots.map_values(|s: Slot| s.0)[i] == slots[i].0);
        assert(slots.map_values(|s: Slot| s.0)[j] == slots[j].0);
        let a = schema_names()[i];
        let b = schema_names()[j];
        assert(plain_quoted(a) == plain_quoted(b));
        lemma_plain_quoted_injective(a, b);
        assert(i == j);
    }
}

/// An event whose optional fields are all present is written with every key
/// of the schema, in the schema's order.
pub proof fn lemma_full_event_keys(e: EventModel)
    requires
        fully_populated(e),
    ensures
        member_keys(e) == schema_names().map_values(|n: Seq<char>| plain_quoted(n)),
{
    let slots = event_slots(e);
    lemma_slot_names(e);
    assert forall|i: int| 0 <= i < slots.len() implies (#[trigger] slots[i]).1 is Some by {}
    lemma_all_slots_present(slots);
    assert(slots.map_values(|s: Slot| plain_quoted(s.0)) =~= schema_names().map_values(
        |n: Seq<char>| plain_quoted(n),
    ));
}

/// Decimal text is never empty and starts with a digit.
proof fn lemma_decimal_lead(n: nat)
    ensures
        decimal(n).len() > 0,
        decimal(n)[0] != 'n',
    decreases n,
{
    if n >= 10 {
        lemma_decimal_lead(n / 10);
        assert((decimal(n / 10) + seq![crate::json::digit_char(n % 10)])[0] == decimal(n / 10)[0]);
    }
}

/// The value of each place that holds one is a string, a number or an
/// object: never empty, and never starting as `null` does.
proof fn lemma_slot_values_lead(e: EventModel)
    ensures
        forall|i: int|
            0 <= i < event_slots(e).len() && (#[trigger] event_slots(e)[i]).1 is Some ==> {
                let v = event_slots(e)[i].1->0;
                v.len() > 0 && v[0] != 'n'
            },
{
    if let Some(t) = e.timestamp {
        if t < 0 {
            lemma_decimal_lead((-t) as nat);
        } else {
            lemma_decimal_lead(t as nat);
        }
    }
    if let Some(n) = e.start_timestamp {
        lemma_decimal_lead(n as nat);
    }
    if let Some(n) = e.finish_timestamp {
        lemma_decimal_lead(n as nat);
    }
    if let Some(n) = e.duration {
        lemma_decimal_lead(n as nat);
    }
    if let Some(n) = e.duration_in_ms {
        lemma_decimal_lead(n as nat);
    }
    if let Some(n) = e.response_code {
        lemma_decimal_lead(n as nat);
    }
}

/// No member of an event's JSON object has the value `null`: an absent
/// field is left out rather than written as `null`.
pub proof fn lemma_no_null_values(e: EventModel)
    ensures
        forall|k: int|
            0 <= k < event_members(e).len() ==> (#[trigger] event_members(e)[k]).1 != "null"@,
{
    let slots = event_slots(e);
    lemma_member_keys_from_slots(slots);
    lemma_slot_values_lead(e);
    reveal_strlit("null");
    assert forall|k: int| 0 <= k < event_members(e).len() implies (#[trigger] event_members(
        e,
    )[k]).1 != "null"@ by {
        let m = present_members(slots)[k];
        assert(member_of_present_slot(slots, m));
        let i = choose|i: int|
            0 <= i < slots.len() && (#[trigger] slots[i]).1 == Some(m.1) && m.0 == plain_quoted(
                slots[i].0,
            );
        assert(slots[i].1 is Some);
        assert(m.1[0] != "null"@[0]);
    }
}

/// Quoting keeps names apart.
proof fn lemma_plain_quoted_injective(a: Seq<char>, b: Seq<char>)
    requires
        plain_quoted(a) == plain_quoted(b),
    ensures
        a == b,
{
    assert(a =~= plain_quoted(a).subrange(1, plain_quoted(a).len() - 1));
    assert(b =~= plain_quoted(b).subrange(1, plain_quoted(b).len() - 1));
}

/// Filtering by a predicate that every element meets changes nothing.
proof fn lemma_filter_all(s: Seq<Member>, key: Seq<char>)
    requires
        forall|i: int| 0 <= i < s.len() ==> (#[trigger] s[i]).0 != key,
    ensures
        s.filter(|m: Member| m.0 != key) == s,
    decreases s.len(),
{
    reveal(Seq::filter);
    if s.len() > 0 {
        let rest = s.drop_last();
        assert forall|i: int| 0 <= i < rest.len() implies (#[trigger] rest[i]).0 != key by {
            assert(rest[i] == s[i]);
        }
        lemma_filter_all(rest, key);
        assert(s.last() == s[s.len() - 1]);
        assert(s =~= rest.push(s.last()));
    }
}

/// Emptying place `j`, whose name no other place has, removes just the
/// member with that key.
proof fn lemma_clear_slot(a: Seq<Slot>, b: Seq<Slot>, j: int)
    requires
        a.len() == b.len(),
        0 <= j < a.len(),
        forall|i: int| 0 <= i < a.len() && i != j ==> b[i] == a[i],
        b[j].0 == a[j].0,
        b[j].1 is None,
        forall|i: int| 0 <= i < a.len() && i != j ==> (#[trigger] a[i]).0 != a[j].0,
    ensures
        present_members(b) == present_members(a).filter(|m: Member| m.0 != plain_quoted(a[j].0)),
    decreases a.len(),
{
    reveal(Seq::filter);
    let key = plain_quoted(a[j].0);
    let a0 = a.drop_last();
    let b0 = b.drop_last();
    let n = a.len() - 1;
    assert(a.last() == a[n]);
    assert(b.last() == b[n]);
    if j < n {
        assert forall|i: int| 0 <= i < a0.len() && i != j implies b0[i] == a0[i] by {
            assert(b0[i] == b[i] && a0[i] == a[i]);
        }
        assert forall|i: int| 0 <= i < a0.len() && i != j implies (#[trigger] a0[i]).0 != a0[j].0 by {
            assert(a0[i] == a[i] && a0[j] == a[j]);
        }
        lemma_clear_slot(a0, b0, j);
        assert(b[n] == a[n]);
        if let Some(v) = a[n].1 {
            let x: Member = (plain_quoted(a[n].0), v);
            if x.0 == key {
                lemma_plain_quoted_injective(a[n].0, a[j].0);
            }
            let pa = present_members(a0);
            assert(pa.push(x).drop_last() =~= pa);
        }
    } else {
        assert(a0 =~= b0) by {
            assert forall|i: int| 0 <= i < a0.len() implies a0[i] == b0[i] by {
                assert(a0[i] == a[i] && b0[i] == b[i]);
            }
        }
        let pa = present_members(a0);
        lemma_member_keys_from_slots(a0);
        assert forall|k: int| 0 <= k < pa.len() implies (#[trigger] pa[k]).0 != key by {
            assert(member_of_present_slot(a0, pa[k]));
            let i = choose|i: int|
                0 <= i < a0.len() && (#[trigger] a0[i]).1 == Some(pa[k].1) && pa[k].0
                    == plain_quoted(a0[i].0);
            assert(a0[i] == a[i]);
            if pa[k].0 == key {
                lemma_plain_quoted_injective(a[i].0, a[j].0);
            }
        }
        lemma_filter_all(pa, key);
        if let Some(v) = a[n].1 {
            let x: Member = (plain_quoted(a[n].0), v);
            assert(pa.push(x).drop_last() =~= pa);
        }
    }
}

/// Clearing one optional field of an event removes exactly the member with
/// its key: every other member stays, with its value, in its place.
pub proof fn lemma_absent_field_keeps_others(e: EventModel, cleared: EventModel, j: int)
    requires
        3 <= j < 18,
        forall|i: int| 0 <= i < 18 && i != j ==> event_slots(cleared)[i] == event_slots(e)[i],
        event_slots(cleared)[j].1 is None,
    ensures
        event_members(cleared) == event_members(e).filter(
            |m: Member| m.0 != plain_quoted(schema_names()[j]),
        ),
{
    lemma_slot_names(e);
    let a = event_slots(e);
    assert forall|i: int| 0 <= i < a.len() && i != j implies (#[trigger] a[i]).0 != a[j].0 by {
        assert(a.map_values(|s: Slot| s.0)[i] == a[i].0);
        assert(a.map_values(|s: Slot| s.0)[j] == a[j].0);
    }
    assert(a.map_values(|s: Slot| s.0)[j] == a[j].0);
    lemma_clear_slot(a, event_slots(cleared), j);
}

} // verus!
