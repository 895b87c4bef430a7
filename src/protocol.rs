//! The control envelope exchanged with the router:
//! `{"client-id": <string>, "type": <string>, "payload": <object>}`.
//! Inbound frames are read into their fields and routed to the one media-engine
//! call they ask for, or dropped; outbound messages are written as text.
use vstd::prelude::*;
use crate::json::{
    is_plain_char, lemma_plain_text_quoted, is_json, is_json_object, is_json_object_text, is_json_text, json_quoted, json_str_member, json_str_member_in,
    json_string, json_u64_member_in, str_member, str_member_in, u64_member_in,
};

verus! {

/// The fields of an inbound envelope that the routing reads, each absent
/// where the frame lacks it or holds a value of another JSON type.
pub struct Envelope {
    pub client_id: Option<String>,
    pub kind: Option<String>,
    pub sdp: Option<String>,
    pub candidate: Option<String>,
    pub sdp_mline_index: Option<u64>,
    pub sdp_mid: Option<String>,
}

pub struct EnvelopeView {
    pub client_id: Option<Seq<char>>,
    pub kind: Option<Seq<char>>,
    pub sdp: Option<Seq<char>>,
    pub candidate: Option<Seq<char>>,
    pub sdp_mline_index: Option<u64>,
    pub sdp_mid: Option<Seq<char>>,
}

pub open spec fn opt_text(o: Option<String>) -> Option<Seq<char>> {
    match o {
        Some(t) => Some(t@),
        None => None,
    }
}

impl View for Envelope {
    type V = EnvelopeView;

    open spec fn view(&self) -> EnvelopeView {
        EnvelopeView {
            client_id: opt_text(self.client_id),
            kind: opt_text(self.kind),
            sdp: opt_text(self.sdp),
            candidate: opt_text(self.candidate),
            sdp_mline_index: self.sdp_mline_index,
            sdp_mid: opt_text(self.sdp_mid),
        }
    }
}

/// Why an inbound frame leads to no media-engine call.
#[derive(PartialEq, Eq, Structural, Clone, Copy, Debug)]
pub enum DropReason {
    /// The frame is not well-formed JSON.
    NotJson,
    /// `client-id` is missing, not a string, or empty.
    NoClientId,
    /// `type` is missing or names no inbound message.
    UnsupportedType,
    /// An `ice-candidate` message without `payload.candidate`.
    NoCandidate,
}

/// The media-engine call that an inbound frame asks for.
pub enum Inbound {
    Dropped { reason: DropReason },
    /// A viewer asks for a session: register it as a consumer.
    Request { client_id: String },
    /// A viewer's session-description answer.
    Answer { client_id: String, sdp: String },
    /// A viewer's ICE candidate.
    IceCandidate {
        client_id: String,
        candidate: String,
        sdp_mline_index: u32,
        sdp_mid: Option<String>,
    },
}

pub enum InboundView {
    Dropped { reason: DropReason },
    Request { client_id: Seq<char> },
    Answer { client_id: Seq<char>, sdp: Seq<char> },
    IceCandidate {
        client_id: Seq<char>,
        candidate: Seq<char>,
        sdp_mline_index: u32,
        sdp_mid: Option<Seq<char>>,
    },
}

impl View for Inbound {
    type V = InboundView;

    open spec fn view(&self) -> InboundView {
        match self {
            Inbound::Dropped { reason } => InboundView::Dropped { reason: *reason },
            Inbound::Request { client_id } => InboundView::Request { client_id: client_id@ },
            Inbound::Answer { client_id, sdp } => InboundView::Answer {
                client_id: client_id@,
                sdp: sdp@,
            },
            Inbound::IceCandidate { client_id, candidate, sdp_mline_index, sdp_mid } =>
                InboundView::IceCandidate {
                client_id: client_id@,
                candidate: candidate@,
                sdp_mline_index: *sdp_mline_index,
                sdp_mid: opt_text(*sdp_mid),
            },
        }
    }
}

/// The media line index handed on: the one received where it fits in 32
/// bits, else 0; 0 where none was received.
pub open spec fn mline_index_of(n: Option<u64>) -> u32 {
    match n {
        Some(v) => if v <= u32::MAX {
            v as u32
        } else {
            0
        },
        None => 0,
    }
}

/// The routing of an inbound envelope.
pub open spec fn route_of(e: EnvelopeView) -> InboundView {
    match e.client_id {
        None => InboundView::Dropped { reason: DropReason::NoClientId },
        Some(id) => if id.len() == 0 {
            InboundView::Dropped { reason: DropReason::NoClientId }
        } else if e.kind == Some("request"@) {
            InboundView::Request { client_id: id }
        } else if e.kind == Some("answer"@) {
            InboundView::Answer {
                client_id: id,
                sdp: match e.sdp {
                    Some(s) => s,
                    None => Seq::empty(),
                },
            }
        } else if e.kind == Some("ice-candidate"@) {
            match e.candidate {
                Some(c) => InboundView::IceCandidate {
                    client_id: id,
                    candidate: c,
                    sdp_mline_index: mline_index_of(e.sdp_mline_index),
                    sdp_mid: e.sdp_mid,
                },
                None => InboundView::Dropped { reason: DropReason::NoCandidate },
            }
        } else {
            InboundView::Dropped { reason: DropReason::UnsupportedType }
        },
    }
}

/// Whether an optional string holds exactly the text of `lit`.
fn is_text(o: &Option<String>, lit: &str) -> (r: bool)
    ensures
        r == (opt_text(*o) == Some(lit@)),
{
    match o {
        Some(s) => {
            let l = String::from_str(lit);
            *s == l
        },
        None => false,
    }
}

fn copy_text(o: &Option<String>) -> (r: Option<String>)
    ensures
        opt_text(r) == opt_text(*o),
{
    match o {
        Some(s) => Some(s.clone()),
        None => None,
    }
}

/// The media-engine call that an envelope asks for: none where `client-id`
/// is missing or empty, where `type` is not `request`, `answer` or
/// `ice-candidate`, or where an ICE candidate message carries no candidate.
pub fn route(e: &Envelope) -> (r: Inbound)
    ensures
        r@ == route_of(e@),
{
    match &e.client_id {
        None => Inbound::Dropped { reason: DropReason::NoClientId },
        Some(id) => {
            if id.as_str().unicode_len() == 0 {
                Inbound::Dropped { reason: DropReason::NoClientId }
            } else if is_text(&e.kind, "request") {
                Inbound::Request { client_id: id.clone() }
            } else if is_text(&e.kind, "answer") {
                let sdp = match &e.sdp {
                    Some(s) => s.clone(),
                    None => String::new(),
                };
                Inbound::Answer { client_id: id.clone(), sdp }
            } else if is_text(&e.kind, "ice-candidate") {
                match &e.candidate {
                    Some(c) => {
                        let idx: u32 = match e.sdp_mline_index {
                            Some(v) => if v <= 0xffff_ffffu64 {
                                v as u32
                            } else {
                                0
                            },
                            None => 0,
                        };
                        Inbound::IceCandidate {
                            client_id: id.clone(),
                            candidate: c.clone(),
                            sdp_mline_index: idx,
                            sdp_mid: copy_text(&e.sdp_mid),
                        }
                    },
                    None => Inbound::Dropped { reason: DropReason::NoCandidate },
                }
            } else {
                Inbound::Dropped { reason: DropReason::UnsupportedType }
            }
        },
    }
}

/// The fields of the envelope that serde_json reads out of `text`: none where
/// the text is no JSON object.
pub open spec fn envelope_of(text: Seq<char>) -> EnvelopeView {
    if is_json_object_text(text) {
        EnvelopeView {
            client_id: json_str_member(text, "client-id"@),
            kind: json_str_member(text, "type"@),
            sdp: json_str_member_in(text, "payload"@, "sdp"@),
            candidate: json_str_member_in(text, "payload"@, "candidate"@),
            sdp_mline_index: json_u64_member_in(text, "payload"@, "sdpMLineIndex"@),
            sdp_mid: json_str_member_in(text, "payload"@, "sdpMid"@),
        }
    } else {
        EnvelopeView {
            client_id: None,
            kind: None,
            sdp: None,
            candidate: None,
            sdp_mline_index: None,
            sdp_mid: None,
        }
    }
}

/// Reads the fields of an envelope out of a received text frame; `None`
/// exactly where the frame is not well-formed JSON. A well-formed frame that
/// is not an object has no fields; one that lacks a field reads with that
/// field absent.
pub fn read_envelope(text: &str) -> (r: Option<Envelope>)
    ensures
        r is Some <==> is_json_text(text@),
        r matches Some(e) ==> e@ == envelope_of(text@),
{
    if !is_json(text) {
        return None;
    }
    if !is_json_object(text) {
        return Some(
            Envelope {
                client_id: None,
                kind: None,
                sdp: None,
                candidate: None,
                sdp_mline_index: None,
                sdp_mid: None,
            },
        );
    }
    let client_id = str_member(text, "client-id");
    let kind = str_member(text, "type");
    let sdp = str_member_in(text, "payload", "sdp");
    let candidate = str_member_in(text, "payload", "candidate");
    let sdp_mline_index = u64_member_in(text, "payload", "sdpMLineIndex");
    let sdp_mid = str_member_in(text, "payload", "sdpMid");
    Some(Envelope { client_id, kind, sdp, candidate, sdp_mline_index, sdp_mid })
}

/// Decodes one received text frame into the media-engine call it asks for.
/// A frame that is not well-formed JSON, or is JSON but no object, is
/// dropped, never an error; any other frame is routed by the fields read
/// from it.
pub fn decode(text: &str) -> (r: Inbound)
    ensures
        !is_json_text(text@) ==> r@ == (InboundView::Dropped { reason: DropReason::NotJson }),
        is_json_text(text@) ==> r@ == route_of(envelope_of(text@)),
        is_json_text(text@) && !is_json_object_text(text@) ==> r@ == (InboundView::Dropped {
            reason: DropReason::NoClientId,
        }),
{
    match read_envelope(text) {
        None => Inbound::Dropped { reason: DropReason::NotJson },
        Some(e) => route(&e),
    }
}

/// A frame without a usable `client-id` never reaches the media engine,
/// whatever else it holds.
pub proof fn lemma_no_client_id_no_call(e: EnvelopeView)
    requires
        e.client_id matches Some(id) ==> id.len() == 0,
    ensures
        route_of(e) == (InboundView::Dropped { reason: DropReason::NoClientId }),
{
}

/// A message to the router.
pub enum Outbound {
    /// Tells the router that every waiting viewer may now ask for a session.
    HostReady,
    /// A session-description offer for one viewer.
    Offer { peer_id: String, sdp: String },
    /// One of the host's ICE candidates for one viewer.
    IceCandidate {
        peer_id: String,
        candidate: String,
        sdp_mline_index: Option<u32>,
        sdp_mid: Option<String>,
    },
}

pub enum OutboundView {
    HostReady,
    Offer { peer_id: Seq<char>, sdp: Seq<char> },
    IceCandidate {
        peer_id: Seq<char>,
        candidate: Seq<char>,
        sdp_mline_index: Option<u32>,
        sdp_mid: Option<Seq<char>>,
    },
}

impl View for Outbound {
    type V = OutboundView;

    open spec fn view(&self) -> OutboundView {
        match self {
            Outbound::HostReady => OutboundView::HostReady,
            Outbound::Offer { peer_id, sdp } => OutboundView::Offer { peer_id: peer_id@, sdp: sdp@ },
            Outbound::IceCandidate { peer_id, candidate, sdp_mline_index, sdp_mid } =>
                OutboundView::IceCandidate {
                peer_id: peer_id@,
                candidate: candidate@,
                sdp_mline_index: *sdp_mline_index,
                sdp_mid: opt_text(*sdp_mid),
            },
        }
    }
}

pub open spec fn digit_char(d: nat) -> char {
    if d == 0 { '0' } else if d == 1 { '1' } else if d == 2 { '2' } else if d == 3 { '3' }
    else if d == 4 { '4' } else if d == 5 { '5' } else if d == 6 { '6' } else if d == 7 { '7' }
    else if d == 8 { '8' } else { '9' }
}

/// The decimal digits of `n`, without leading zeros.
pub open spec fn decimal_text(n: nat) -> Seq<char>
    decreases n,
{
    if n < 10 {
        seq![digit_char(n)]
    } else {
        decimal_text(n / 10).push(digit_char(n % 10))
    }
}

pub open spec fn host_ready_text() -> Seq<char> {
    "{\"client-id\":\"broadcast\",\"type\":\"host-ready\"}"@
}

pub open spec fn offer_text(peer_id: Seq<char>, sdp: Seq<char>) -> Seq<char> {
    "{\"client-id\":"@ + json_quoted(peer_id)
        + ",\"type\":\"offer\",\"payload\":{\"type\":\"offer\",\"sdp\":"@ + json_quoted(sdp)
        + "}}"@
}

/// An ICE candidate message; an absent mid is written as the empty string and
/// an absent media line index as 0.
pub open spec fn ice_text(
    peer_id: Seq<char>,
    candidate: Seq<char>,
    sdp_mline_index: Option<u32>,
    sdp_mid: Option<Seq<char>>,
) -> Seq<char> {
    "{\"client-id\":"@ + json_quoted(peer_id)
        + ",\"type\":\"ice-candidate\",\"payload\":{\"candidate\":"@ + json_quoted(candidate)
        + ",\"sdpMid\":"@ + json_quoted(
        match sdp_mid {
            Some(m) => m,
            None => Seq::empty(),
        },
    ) + ",\"sdpMLineIndex\":"@ + decimal_text(
        match sdp_mline_index {
            Some(i) => i as nat,
            None => 0,
        },
    ) + "}}"@
}

/// The text frame of an outbound message.
pub open spec fn outbound_text(m: OutboundView) -> Seq<char> {
    match m {
        OutboundView::HostReady => host_ready_text(),
        OutboundView::Offer { peer_id, sdp } => offer_text(peer_id, sdp),
        OutboundView::IceCandidate { peer_id, candidate, sdp_mline_index, sdp_mid } => ice_text(
            peer_id,
            candidate,
            sdp_mline_index,
            sdp_mid,
        ),
    }
}

fn digit(d: u32) -> (r: &'static str)
    requires
        d < 10,
    ensures
        r@ == seq![digit_char(d as nat)],
{
    proof {
        reveal_strlit("0");
        reveal_strlit("1");
        reveal_strlit("2");
        reveal_strlit("3");
        reveal_strlit("4");
        reveal_strlit("5");
        reveal_strlit("6");
        reveal_strlit("7");
        reveal_strlit("8");
        reveal_strlit("9");
    }
    let r = if d == 0 { "0" } else if d == 1 { "1" } else if d == 2 { "2" } else if d == 3 { "3" }
    else if d == 4 { "4" } else if d == 5 { "5" } else if d == 6 { "6" } else if d == 7 { "7" }
    else if d == 8 { "8" } else { "9" };
    assert(r@ =~= seq![digit_char(d as nat)]);
    r
}

/// `n` in decimal.
pub fn decimal(n: u32) -> (r: String)
    ensures
        r@ == decimal_text(n as nat),
    decreases n,
{
    if n < 10 {
        String::from_str(digit(n))
    } else {
        let mut r = decimal(n / 10);
        r.append(digit(n % 10));
        assert(r@ =~= decimal_text(n as nat));
        r
    }
}

/// Writes an outbound message as the text frame sent to the router. Optional
/// fields that are absent are written as the empty string or 0, never left out.
pub fn encode(m: &Outbound) -> (r: String)
    ensures
        r@ == outbound_text(m@),
{
    match m {
        Outbound::HostReady => String::from_str("{\"client-id\":\"broadcast\",\"type\":\"host-ready\"}"),
        Outbound::Offer { peer_id, sdp } => {
            let mut r = String::from_str("{\"client-id\":");
            r.append(json_string(peer_id.as_str()).as_str());
            r.append(",\"type\":\"offer\",\"payload\":{\"type\":\"offer\",\"sdp\":");
            r.append(json_string(sdp.as_str()).as_str());
            r.append("}}");
            assert(r@ =~= offer_text(peer_id@, sdp@));
            r
        },
        Outbound::IceCandidate { peer_id, candidate, sdp_mline_index, sdp_mid } => {
            let mut r = String::from_str("{\"client-id\":");
            r.append(json_string(peer_id.as_str()).as_str());
            r.append(",\"type\":\"ice-candidate\",\"payload\":{\"candidate\":");
            r.append(json_string(candidate.as_str()).as_str());
            r.append(",\"sdpMid\":");
            let mid = match sdp_mid {
                Some(t) => json_string(t.as_str()),
                None => {
                    proof {
                        reveal_strlit("");
                    }
                    assert(""@ =~= Seq::<char>::empty());
                    json_string("")
                },
            };
            r.append(mid.as_str());
            r.append(",\"sdpMLineIndex\":");
            let idx: u32 = match sdp_mline_index {
                Some(i) => *i,
                None => 0,
            };
            r.append(decimal(idx).as_str());
            r.append("}}");
            assert(r@ =~= ice_text(peer_id@, candidate@, *sdp_mline_index, opt_text(*sdp_mid)));
            r
        },
    }
}

/// Text that needs no escaping: no quotes, backslashes or control characters.
pub open spec fn is_plain_text(s: Seq<char>) -> bool {
    forall|i: int| 0 <= i < s.len() ==> is_plain_char(#[trigger] s[i])
}

/// An offer whose peer id and session description need no escaping is sent
/// with both texts as they stand, between quotes.
pub proof fn lemma_plain_offer_frame(peer_id: Seq<char>, sdp: Seq<char>)
    requires
        is_plain_text(peer_id),
        is_plain_text(sdp),
    ensures
        offer_text(peer_id, sdp) == "{\"client-id\":\""@ + peer_id
            + "\",\"type\":\"offer\",\"payload\":{\"type\":\"offer\",\"sdp\":\""@ + sdp + "\"}}"@,
{
    lemma_plain_text_quoted(peer_id);
    lemma_plain_text_quoted(sdp);
    reveal_strlit("{\"client-id\":\"");
    reveal_strlit("{\"client-id\":");
    reveal_strlit(",\"type\":\"offer\",\"payload\":{\"type\":\"offer\",\"sdp\":");
    reveal_strlit("\",\"type\":\"offer\",\"payload\":{\"type\":\"offer\",\"sdp\":\"");
    reveal_strlit("}}");
    reveal_strlit("\"}}");
    assert(offer_text(peer_id, sdp) =~= "{\"client-id\":\""@ + peer_id
        + "\",\"type\":\"offer\",\"payload\":{\"type\":\"offer\",\"sdp\":\""@ + sdp + "\"}}"@);
}

/// An ICE candidate whose peer id, candidate line and mid need no escaping is
/// sent with those texts as they stand, between quotes, and the media line
/// index in decimal.
pub proof fn lemma_plain_ice_frame(peer_id: Seq<char>, candidate: Seq<char>, index: u32, mid: Seq<char>)
    requires
        is_plain_text(peer_id),
        is_plain_text(candidate),
        is_plain_text(mid),
    ensures
        ice_text(peer_id, candidate, Some(index), Some(mid)) == "{\"client-id\":\""@ + peer_id
            + "\",\"type\":\"ice-candidate\",\"payload\":{\"candidate\":\""@ + candidate
            + "\",\"sdpMid\":\""@ + mid + "\",\"sdpMLineIndex\":"@ + decimal_text(index as nat)
            + "}}"@,
{
    lemma_plain_text_quoted(peer_id);
    lemma_plain_text_quoted(candidate);
    lemma_plain_text_quoted(mid);
    reveal_strlit("{\"client-id\":\"");
    reveal_strlit("{\"client-id\":");
    reveal_strlit(",\"type\":\"ice-candidate\",\"payload\":{\"candidate\":");
    reveal_strlit("\",\"type\":\"ice-candidate\",\"payload\":{\"candidate\":\"");
    reveal_strlit(",\"sdpMid\":");
    reveal_strlit("\",\"sdpMid\":\"");
    reveal_strlit(",\"sdpMLineIndex\":");
    reveal_strlit("\",\"sdpMLineIndex\":");
    assert(ice_text(peer_id, candidate, Some(index), Some(mid)) =~= "{\"client-id\":\""@ + peer_id
        + "\",\"type\":\"ice-candidate\",\"payload\":{\"candidate\":\""@ + candidate
        + "\",\"sdpMid\":\""@ + mid + "\",\"sdpMLineIndex\":"@ + decimal_text(index as nat)
        + "}}"@);
}

} // verus!
