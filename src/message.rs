//! Message segments: the wire form (`InternalSegment`) and the host form
//! (`OneBotSegment`), with the mapping between them.

use vstd::prelude::*;
use vstd::string::StringExecFns;
use crate::echo::{decimal, echo_text};

verus! {

/// A segment as the peer writes it: `{"type": <kind>, "data": {...}}`.
#[derive(Debug, PartialEq, Eq)]
pub enum InternalSegment {
    Text(TextData),
    Image(MediaData),
    Record(MediaData),
    At(AtData),
    Poke(PokeData),
    Share(ShareData),
    Contact(ContactData),
    Location(LocationData),
    Reply(ReplyData),
    Forward(ForwardData),
    /// Any segment kind this adapter does not know.
    Unknown,
}

#[derive(Debug, PartialEq, Eq)]
pub struct TextData {
    pub text: String,
}

#[derive(Debug, PartialEq, Eq)]
pub struct MediaData {
    pub file: String,
}

#[derive(Debug, PartialEq, Eq)]
pub struct AtData {
    pub id: Option<String>,
    pub qq: Option<String>,
}

#[derive(Debug, PartialEq, Eq)]
pub struct PokeData {
    pub poke_type: String,
    pub id: String,
}

#[derive(Debug, PartialEq, Eq)]
pub struct ShareData {
    pub url: String,
}

#[derive(Debug, PartialEq, Eq)]
pub struct ContactData {
    pub contact_type: ContactType,
    pub id: String,
}

/// Coordinates are kept as the decimal text the peer sent.
#[derive(Debug, PartialEq, Eq)]
pub struct LocationData {
    pub lat: String,
    pub lon: String,
}

#[derive(Debug, PartialEq, Eq)]
pub struct ReplyData {
    pub id: String,
}

#[derive(Debug, Clone, Copy, PartialEq, Eq)]
pub enum ContactType {
    QQ,
    Group,
}

#[derive(Debug, PartialEq, Eq)]
pub struct ForwardData {
    pub id: String,
}

/// One node of a forwarded message: `{"type": "node", "data": {...}}`.
#[derive(Debug, PartialEq, Eq)]
pub struct InternalForwardMessage {
    pub kind: String,
    pub data: InternalForwardMessageData,
}

#[derive(Debug, PartialEq, Eq)]
pub struct InternalForwardMessageData {
    pub user_id: String,
    pub nickname: String,
    pub content: Vec<InternalSegment>,
}

impl InternalForwardMessage {
    /// A `node` sent in the name of `user_id`, whose id is written in decimal.
    pub fn new(user_id: u64, nickname: String, content: Vec<InternalSegment>) -> (r: Self)
        ensures
            r.kind@ == "node"@,
            r.data.user_id@ == decimal(user_id as nat),
            r.data.nickname == nickname,
            r.data.content == content,
    {
        InternalForwardMessage {
            kind: String::from_str("node"),
            data: InternalForwardMessageData { user_id: echo_text(user_id), nickname, content },
        }
    }
}

/// Id of a forwarded message as the host knows it.
#[derive(Debug, PartialEq, Eq)]
pub struct ForwardId {
    pub id: String,
}

impl ForwardId {
    pub fn new(value: String) -> (r: Self)
        ensures
            r.id == value,
    {
        ForwardId { id: value }
    }

    /// The id's text.
    pub fn to_string(&self) -> (r: String)
        ensures
            r@ == self.id@,
    {
        self.id.clone()
    }
}

/// A segment as the host represents it.
#[derive(Debug, PartialEq, Eq)]
pub enum OneBotSegment {
    Text(String),
    /// Image, by URL.
    Image(String),
    /// Mention of a user, by id.
    At(String),
    /// Voice, by URL.
    Record(String),
    /// Poke of a user, by id.
    Poke(String),
    /// Coordinates as decimal text.
    Location { lat: String, lon: String },
    /// Reply to a message, by id.
    Reply(String),
    Forward(ForwardId),
    Unknown,
}

impl OneBotSegment {
    pub fn text(text: String) -> (r: Self)
        ensures
            r == OneBotSegment::Text(text),
    {
        OneBotSegment::Text(text)
    }

    pub fn img(url: String) -> (r: Self)
        ensures
            r == OneBotSegment::Image(url),
    {
        OneBotSegment::Image(url)
    }

    pub fn at(user_id: String) -> (r: Self)
        ensures
            r == OneBotSegment::At(user_id),
    {
        OneBotSegment::At(user_id)
    }

    pub fn record(url: String) -> (r: Self)
        ensures
            r == OneBotSegment::Record(url),
    {
        OneBotSegment::Record(url)
    }

    pub fn poke(user_id: String) -> (r: Self)
        ensures
            r == OneBotSegment::Poke(user_id),
    {
        OneBotSegment::Poke(user_id)
    }

    pub fn location(lat: String, lon: String) -> (r: Self)
        ensures
            r == (OneBotSegment::Location { lat, lon }),
    {
        OneBotSegment::Location { lat, lon }
    }

    pub fn reply(message_id: String) -> (r: Self)
        ensures
            r == OneBotSegment::Reply(message_id),
    {
        OneBotSegment::Reply(message_id)
    }

    pub fn forward(forward_id: ForwardId) -> (r: Self)
        ensures
            r == OneBotSegment::Forward(forward_id),
    {
        OneBotSegment::Forward(forward_id)
    }
}

/// `h` is the host form of the wire segment `w`. A mention names `id` when it
/// is given, else `qq`, and becomes the text "[@]" when neither is; kinds the
/// host has no form for become `Unknown`.
pub open spec fn host_segment_of(w: InternalSegment, h: OneBotSegment) -> bool {
    match w {
        InternalSegment::Text(d) => h == OneBotSegment::Text(d.text),
        InternalSegment::Image(d) => h == OneBotSegment::Image(d.file),
        InternalSegment::Record(d) => h == OneBotSegment::Record(d.file),
        InternalSegment::At(d) => match d.id {
            Some(id) => h == OneBotSegment::At(id),
            None => match d.qq {
                Some(qq) => h == OneBotSegment::At(qq),
                None => h matches OneBotSegment::Text(t) && t@ == "[@]"@,
            },
        },
        InternalSegment::Poke(d) => h == OneBotSegment::Poke(d.id),
        InternalSegment::Location(d) => h == (OneBotSegment::Location { lat: d.lat, lon: d.lon }),
        InternalSegment::Reply(d) => h == OneBotSegment::Reply(d.id),
        InternalSegment::Forward(d) => h == OneBotSegment::Forward(ForwardId { id: d.id }),
        _ => h == OneBotSegment::Unknown,
    }
}

/// `w` is the wire form of the host segment `h`. A mention carries the id in
/// `id`, and a poke is of type "poke".
pub open spec fn wire_segment_of(h: OneBotSegment, w: InternalSegment) -> bool {
    match h {
        OneBotSegment::Text(t) => w == InternalSegment::Text(TextData { text: t }),
        OneBotSegment::Image(u) => w == InternalSegment::Image(MediaData { file: u }),
        OneBotSegment::At(u) => w == InternalSegment::At(AtData { id: Some(u), qq: None }),
        OneBotSegment::Record(u) => w == InternalSegment::Record(MediaData { file: u }),
        OneBotSegment::Poke(u) => w matches InternalSegment::Poke(d) && d.id == u && d.poke_type@ == "poke"@,
        OneBotSegment::Location { lat, lon } => w == InternalSegment::Location(LocationData { lat, lon }),
        OneBotSegment::Reply(m) => w == InternalSegment::Reply(ReplyData { id: m }),
        OneBotSegment::Forward(f) => w == InternalSegment::Forward(ForwardData { id: f.id }),
        OneBotSegment::Unknown => w == InternalSegment::Unknown,
    }
}

impl OneBotSegment {
    /// The host form of a wire segment.
    pub fn from(value: InternalSegment) -> (r: Self)
        ensures
            host_segment_of(value, r),
    {
        match value {
            InternalSegment::Text(d) => OneBotSegment::Text(d.text),
            InternalSegment::Image(d) => OneBotSegment::Image(d.file),
            InternalSegment::Record(d) => OneBotSegment::Record(d.file),
            InternalSegment::At(d) => {
                match d.id {
                    Some(id) => OneBotSegment::At(id),
                    None => match d.qq {
                        Some(qq) => OneBotSegment::At(qq),
                        None => OneBotSegment::Text(String::from_str("[@]")),
                    },
                }
            },
            InternalSegment::Poke(d) => OneBotSegment::Poke(d.id),
            InternalSegment::Location(d) => OneBotSegment::Location { lat: d.lat, lon: d.lon },
            InternalSegment::Reply(d) => OneBotSegment::Reply(d.id),
            InternalSegment::Forward(d) => OneBotSegment::Forward(ForwardId { id: d.id }),
            _ => OneBotSegment::Unknown,
        }
    }
}

impl InternalSegment {
    /// The wire form of a host segment.
    pub fn from(value: OneBotSegment) -> (r: Self)
        ensures
            wire_segment_of(value, r),
    {
        match value {
            OneBotSegment::Text(t) => InternalSegment::Text(TextData { text: t }),
            OneBotSegment::Image(u) => InternalSegment::Image(MediaData { file: u }),
            OneBotSegment::At(u) => InternalSegment::At(AtData { id: Some(u), qq: None }),
            OneBotSegment::Record(u) => InternalSegment::Record(MediaData { file: u }),
            OneBotSegment::Poke(u) => InternalSegment::Poke(
                PokeData { poke_type: String::from_str("poke"), id: u },
            ),
            OneBotSegment::Location { lat, lon } => InternalSegment::Location(LocationData { lat, lon }),
            OneBotSegment::Reply(m) => InternalSegment::Reply(ReplyData { id: m }),
            OneBotSegment::Forward(f) => InternalSegment::Forward(ForwardData { id: f.id }),
            OneBotSegment::Unknown => InternalSegment::Unknown,
        }
    }
}

/// Maps each wire segment to its host form, keeping their order.
pub fn segments_to_host(segments: Vec<InternalSegment>) -> (r: Vec<OneBotSegment>)
    ensures
        r@.len() == segments@.len(),
        forall|i: int| 0 <= i < r@.len() ==> host_segment_of(#[trigger] segments@[i], r@[i]),
{
    let ghost orig = segments@;
    let mut rest = segments;
    let mut reversed: Vec<InternalSegment> = Vec::new();
    while rest.len() > 0
        invariant
            rest@.len() + reversed@.len() == orig.len(),
            rest@ == orig.subrange(0, rest@.len() as int),
            forall|k: int| 0 <= k < reversed@.len() ==> #[trigger] reversed@[k] == orig[orig.len() - 1 - k],
        decreases rest@.len(),
    {
        let seg = rest.pop().unwrap();
        reversed.push(seg);
    }
    let mut out: Vec<OneBotSegment> = Vec::new();
    while reversed.len() > 0
        invariant
            reversed@.len() + out@.len() == orig.len(),
            forall|k: int| 0 <= k < reversed@.len() ==> #[trigger] reversed@[k] == orig[orig.len() - 1 - k],
            forall|i: int| 0 <= i < out@.len() ==> host_segment_of(#[trigger] orig[i], out@[i]),
        decreases reversed@.len(),
    {
        let seg = reversed.pop().unwrap();
        let h = OneBotSegment::from(seg);
        out.push(h);
    }
    out
}

/// Maps each host segment to its wire form, keeping their order.
pub fn segments_to_wire(segments: Vec<OneBotSegment>) -> (r: Vec<InternalSegment>)
    ensures
        r@.len() == segments@.len(),
        forall|i: int| 0 <= i < r@.len() ==> wire_segment_of(#[trigger] segments@[i], r@[i]),
{
    let ghost orig = segments@;
    let mut rest = segments;
    let mut reversed: Vec<OneBotSegment> = Vec::new();
    while rest.len() > 0
        invariant
            rest@.len() + reversed@.len() == orig.len(),
            rest@ == orig.subrange(0, rest@.len() as int),
            forall|k: int| 0 <= k < reversed@.len() ==> #[trigger] reversed@[k] == orig[orig.len() - 1 - k],
        decreases rest@.len(),
    {
        let seg = rest.pop().unwrap();
        reversed.push(seg);
    }
    let mut out: Vec<InternalSegment> = Vec::new();
    while reversed.len() > 0
        invariant
            reversed@.len() + out@.len() == orig.len(),
            forall|k: int| 0 <= k < reversed@.len() ==> #[trigger] reversed@[k] == orig[orig.len() - 1 - k],
            forall|i: int| 0 <= i < out@.len() ==> wire_segment_of(#[trigger] orig[i], out@[i]),
        decreases reversed@.len(),
    {
        let seg = reversed.pop().unwrap();
        let w = InternalSegment::from(seg);
        out.push(w);
    }
    out
}

} // verus!
