//! Deep links that pair the agent with a printer of the admin panel:
//! `lesscommerce-print-agent://setup?token=...&api=...&name=...`.

use vstd::prelude::*;

use crate::text::same_text;
use crate::text::texts;
use crate::url::pairs_of;
use crate::url::query_of;
use crate::url::scheme_of;
use crate::url::url_query_pairs;
use crate::url::url_scheme;
use crate::url::Pairs;

verus! {

/// What a deep link tells the setup window.
#[derive(Debug, Clone)]
pub struct PairingPayload {
    pub token: Option<String>,
    pub api: Option<String>,
    pub name: Option<String>,
}

/// What a `PairingPayload` holds.
pub struct PairingModel {
    pub token: Option<Seq<char>>,
    pub api: Option<Seq<char>>,
    pub name: Option<Seq<char>>,
}

impl View for PairingPayload {
    type V = PairingModel;

    open spec fn view(&self) -> PairingModel {
        PairingModel {
            token: self.token.deep_view(),
            api: self.api.deep_view(),
            name: self.name.deep_view(),
        }
    }
}

/// The value of the last pair with the given key.
pub open spec fn last_value(pairs: Pairs, key: Seq<char>) -> Option<Seq<char>>
    decreases pairs.len(),
{
    if pairs.len() == 0 {
        None
    } else if pairs.last().0 == key {
        Some(pairs.last().1)
    } else {
        last_value(pairs.drop_last(), key)
    }
}

/// The payload of a link with the given scheme and query. A link with another
/// scheme is not for the agent.
pub open spec fn payload_of(scheme: Seq<char>, pairs: Pairs) -> Option<PairingModel> {
    if scheme != "lesscommerce-print-agent"@ {
        None
    } else {
        Some(
            PairingModel {
                token: last_value(pairs, "token"@),
                api: last_value(pairs, "api"@),
                name: last_value(pairs, "name"@),
            },
        )
    }
}

/// What an optional payload holds.
pub open spec fn payload_view(payload: Option<PairingPayload>) -> Option<PairingModel> {
    match payload {
        Some(payload) => Some(payload@),
        None => None,
    }
}

/// The payload of a link with the given scheme and query.
pub fn payload_from(scheme: &str, pairs: &Vec<(String, String)>) -> (payload: Option<
    PairingPayload,
>)
    ensures
        payload_view(payload) == payload_of(scheme@, pairs_of(pairs@)),
        payload is Some <==> scheme@ == "lesscommerce-print-agent"@,
        payload is Some ==> {
            let pairs = pairs_of(pairs@);
            &&& payload->0.token.deep_view() == last_value(pairs, "token"@)
            &&& payload->0.api.deep_view() == last_value(pairs, "api"@)
            &&& payload->0.name.deep_view() == last_value(pairs, "name"@)
        },
{
    if !same_text(scheme, "lesscommerce-print-agent") {
        return None;
    }
    proof {
        reveal_strlit("token");
        reveal_strlit("api");
        reveal_strlit("name");
        assert("token"@.len() == 5 && "api"@.len() == 3 && "name"@.len() == 4);
    }
    let mut payload = PairingPayload { token: None, api: None, name: None };
    let ghost all = pairs_of(pairs@);
    let mut i: usize = 0;
    while i < pairs.len()
        invariant
            i <= pairs@.len(),
            all == pairs_of(pairs@),
            "token"@.len() == 5 && "api"@.len() == 3 && "name"@.len() == 4,
            payload.token.deep_view() == last_value(all.take(i as int), "token"@),
            payload.api.deep_view() == last_value(all.take(i as int), "api"@),
            payload.name.deep_view() == last_value(all.take(i as int), "name"@),
        decreases pairs@.len() - i,
    {
        let key = pairs[i].0.as_str();
        let value = pairs[i].1.clone();
        proof {
            assert(all.take(i + 1).drop_last() == all.take(i as int));
            assert(all.take(i + 1).last() == (key@, value@));
        }
        if same_text(key, "token") {
            payload.token = Some(value);
        } else if same_text(key, "api") {
            payload.api = Some(value);
        } else if same_text(key, "name") {
            payload.name = Some(value);
        }
        i = i + 1;
    }
    assert(all.take(i as int) == all);
    Some(payload)
}

/// What `parse_pairing_url` makes of a text.
pub open spec fn link_payload(raw: Seq<char>) -> Option<PairingModel> {
    match url_scheme(raw) {
        None => None,
        Some(scheme) => payload_of(scheme, url_query_pairs(raw)->0),
    }
}

/// The payload of a deep link. A text that is no URL, or a URL with another scheme,
/// has none.
pub fn parse_pairing_url(raw: &str) -> (payload: Option<PairingPayload>)
    ensures
        payload_view(payload) == link_payload(raw@),
        payload is Some <==> url_scheme(raw@) == Some("lesscommerce-print-agent"@),
        payload is Some ==> {
            let pairs = url_query_pairs(raw@)->0;
            &&& payload->0.token.deep_view() == last_value(pairs, "token"@)
            &&& payload->0.api.deep_view() == last_value(pairs, "api"@)
            &&& payload->0.name.deep_view() == last_value(pairs, "name"@)
        },
{
    match (scheme_of(raw), query_of(raw)) {
        (Some(scheme), Some(pairs)) => payload_from(scheme.as_str(), &pairs),
        _ => None,
    }
}

/// The payloads of the links for the agent among some URLs, in their order.
pub open spec fn link_payloads(urls: Seq<Seq<char>>) -> Seq<PairingModel>
    decreases urls.len(),
{
    if urls.len() == 0 {
        seq![]
    } else {
        let before = link_payloads(urls.drop_last());
        match link_payload(urls.last()) {
            Some(payload) => before.push(payload),
            None => before,
        }
    }
}

/// What a sequence of payloads holds.
pub open spec fn payloads_view(payloads: Seq<PairingPayload>) -> Seq<PairingModel> {
    payloads.map_values(|payload: PairingPayload| payload@)
}

/// The payloads to hand to the setup window for some URLs that were opened, in
/// their order. URLs that are not for the agent are passed over.
pub fn handle_deep_link_urls(urls: &Vec<String>) -> (payloads: Vec<PairingPayload>)
    ensures
        payloads_view(payloads@) == link_payloads(texts(urls@)),
{
    let mut payloads: Vec<PairingPayload> = Vec::new();
    let mut i: usize = 0;
    assert(payloads_view(payloads@) == Seq::<PairingModel>::empty());
    while i < urls.len()
        invariant
            i <= urls@.len(),
            payloads_view(payloads@) == link_payloads(texts(urls@).take(i as int)),
        decreases urls@.len() - i,
    {
        let ghost before = payloads@;
        assert(texts(urls@).take(i + 1).drop_last() == texts(urls@).take(i as int));
        match parse_pairing_url(urls[i].as_str()) {
            Some(payload) => {
                payloads.push(payload);
                assert(payloads_view(payloads@) == payloads_view(before).push(payload@));
            },
            None => {},
        }
        i = i + 1;
    }
    assert(texts(urls@).take(i as int) == texts(urls@));
    payloads
}

/// A link is for the agent exactly where it is a URL with the agent's scheme, and what
/// it tells is what its query says of the token, the address and the name,
/// character for character.
pub proof fn law_link_tells_what_its_query_says(raw: Seq<char>)
    ensures
        link_payload(raw) is Some <==> url_scheme(raw) == Some("lesscommerce-print-agent"@),
        link_payload(raw) matches Some(payload) ==> {
            let pairs = url_query_pairs(raw)->0;
            &&& payload.token == last_value(pairs, "token"@)
            &&& payload.api == last_value(pairs, "api"@)
            &&& payload.name == last_value(pairs, "name"@)
        },
{
}

/// Links are taken up one for one, in their order, and those that are not for the
/// agent are left out.
pub proof fn law_links_are_taken_up_in_order(a: Seq<Seq<char>>, b: Seq<Seq<char>>, url: Seq<char>)
    ensures
        link_payloads(Seq::empty()) == Seq::<PairingModel>::empty(),
        link_payload(url) matches Some(payload) ==> link_payloads(seq![url]) == seq![payload],
        link_payload(url) is None ==> link_payloads(seq![url]) == Seq::<PairingModel>::empty(),
        link_payloads(a + b) == link_payloads(a) + link_payloads(b),
    decreases b.len(),
{
    let one = seq![url];
    assert(one.drop_last() == Seq::<Seq<char>>::empty());
    assert(link_payloads(one.drop_last()) == Seq::<PairingModel>::empty());
    assert(link_payload(url) matches Some(payload) ==> link_payloads(one) == seq![payload]);
    if b.len() == 0 {
        assert(a + b == a);
        assert(link_payloads(a) + link_payloads(b) == link_payloads(a));
    } else {
        law_links_are_taken_up_in_order(a, b.drop_last(), url);
        assert((a + b).drop_last() == a + b.drop_last());
        assert((a + b).last() == b.last());
        assert(link_payloads(a + b) == link_payloads(a) + link_payloads(b));
    }
}

/// Payloads are what their fields hold.
pub proof fn law_payloads_are_what_they_hold(payloads: Seq<PairingPayload>)
    ensures
        payloads_view(payloads).len() == payloads.len(),
        forall|i: int|
            0 <= i < payloads.len() ==> {
                let seen = #[trigger] payloads_view(payloads)[i];
                &&& seen.token == payloads[i].token.deep_view()
                &&& seen.api == payloads[i].api.deep_view()
                &&& seen.name == payloads[i].name.deep_view()
            },
{
}

/// A later value of a key replaces an earlier one.
pub proof fn law_last_value_counts(pairs: Pairs, key: Seq<char>, value: Seq<char>)
    ensures
        last_value(pairs.push((key, value)), key) == Some(value),
{
    assert(pairs.push((key, value)).drop_last() == pairs);
}

/// A key is found exactly where some pair has it, and its value is that of such a
/// pair with no later one.
pub proof fn law_last_value_is_that_of_a_pair(pairs: Pairs, key: Seq<char>)
    ensures
        match last_value(pairs, key) {
            None => forall|i: int| 0 <= i < pairs.len() ==> (#[trigger] pairs[i]).0 != key,
            Some(value) => exists|i: int|
                0 <= i < pairs.len() && #[trigger] pairs[i] == (key, value) && forall|j: int|
                    i < j < pairs.len() ==> (#[trigger] pairs[j]).0 != key,
        },
    decreases pairs.len(),
{
    if pairs.len() > 0 {
        let front = pairs.drop_last();
        let last = pairs.len() - 1;
        if pairs.last().0 == key {
            assert(pairs[last] == (key, pairs.last().1));
        } else {
            law_last_value_is_that_of_a_pair(front, key);
            match last_value(front, key) {
                None => {
                    assert forall|i: int| 0 <= i < pairs.len() implies (#[trigger] pairs[i]).0
                        != key by {
                        if i < last {
                            assert(front[i] == pairs[i]);
                        }
                    }
                },
                Some(value) => {
                    let i = choose|i: int|
                        0 <= i < front.len() && #[trigger] front[i] == (key, value) && forall|j: int|
                            i < j < front.len() ==> (#[trigger] front[j]).0 != key;
                    assert(pairs[i] == (key, value));
                    assert forall|j: int| i < j < pairs.len() implies (#[trigger] pairs[j]).0
                        != key by {
                        if j < last {
                            assert(front[j] == pairs[j]);
                        }
                    }
                },
            }
        }
    }
}

/// Keys that the agent does not know change nothing.
pub proof fn law_unknown_keys_are_passed_over(
    scheme: Seq<char>,
    pairs: Pairs,
    key: Seq<char>,
    value: Seq<char>,
)
    requires
        key != "token"@,
        key != "api"@,
        key != "name"@,
    ensures
        payload_of(scheme, pairs.push((key, value))) == payload_of(scheme, pairs),
{
    assert(pairs.push((key, value)).drop_last() == pairs);
}

} // verus!
