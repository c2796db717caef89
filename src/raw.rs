//! The host's raw segment form: a kind and key/value pairs of text.

use vstd::prelude::*;
use vstd::string::StringExecFns;
use crate::message::{ForwardId, OneBotSegment};

verus! {

#[derive(Debug, PartialEq, Eq)]
pub struct SegmentRaw {
    pub kind: String,
    pub kv: Vec<(String, String)>,
}

/// The value of the first pair whose key is `key`.
pub open spec fn lookup(kv: Seq<(String, String)>, key: Seq<char>) -> Option<Seq<char>>
    decreases kv.len(),
{
    if kv.len() == 0 {
        None
    } else if kv[0].0@ == key {
        Some(kv[0].1@)
    } else {
        lookup(kv.drop_first(), key)
    }
}

/// `kv` without its first pair whose key is `key` (unchanged when there is none).
pub open spec fn without_first(kv: Seq<(String, String)>, key: Seq<char>) -> Seq<(String, String)>
    decreases kv.len(),
{
    if kv.len() == 0 {
        kv
    } else if kv[0].0@ == key {
        kv.drop_first()
    } else {
        seq![kv[0]] + without_first(kv.drop_first(), key)
    }
}

proof fn lemma_first_match(kv: Seq<(String, String)>, key: Seq<char>, i: int)
    requires
        0 <= i < kv.len(),
        kv[i].0@ == key,
        forall|j: int| 0 <= j < i ==> (#[trigger] kv[j]).0@ != key,
    ensures
        lookup(kv, key) == Some(kv[i].1@),
        without_first(kv, key) == kv.remove(i),
    decreases i,
{
    if i == 0 {
        assert(kv.remove(0) =~= kv.drop_first());
    } else {
        let rest = kv.drop_first();
        assert(kv[0].0@ != key);
        assert forall|j: int| 0 <= j < i - 1 implies (#[trigger] rest[j]).0@ != key by {
            assert(rest[j] == kv[j + 1]);
        }
        lemma_first_match(rest, key, i - 1);
        assert(kv.remove(i) =~= seq![kv[0]] + rest.remove(i - 1));
    }
}

proof fn lemma_no_match(kv: Seq<(String, String)>, key: Seq<char>)
    requires
        forall|j: int| 0 <= j < kv.len() ==> (#[trigger] kv[j]).0@ != key,
    ensures
        lookup(kv, key) is None,
        without_first(kv, key) == kv,
    decreases kv.len(),
{
    if kv.len() > 0 {
        let rest = kv.drop_first();
        assert(kv[0].0@ != key);
        assert forall|j: int| 0 <= j < rest.len() implies (#[trigger] rest[j]).0@ != key by {
            assert(rest[j] == kv[j + 1]);
        }
        lemma_no_match(rest, key);
        assert(seq![kv[0]] + rest =~= kv);
    }
}

/// `r` is a segment with one text field equal to `v`, built by `make`.
pub open spec fn text_field(v: Option<Seq<char>>, r: Option<OneBotSegment>, make: spec_fn(String) -> OneBotSegment) -> bool {
    match v {
        None => r is None,
        Some(text) => exists|s: String| s@ == text && r == Some(make(s)),
    }
}

/// A segment read from its one field `key`, which is taken out of the pairs.
pub open spec fn one_field(
    kv: Seq<(String, String)>,
    after: Seq<(String, String)>,
    key: Seq<char>,
    r: Option<OneBotSegment>,
    make: spec_fn(String) -> OneBotSegment,
) -> bool {
    &&& text_field(lookup(kv, key), r, make)
    &&& after == without_first(kv, key)
}

/// What `from_raw_segment` yields for `raw`, with `after` the pairs left
/// behind: each known kind needs its field and yields `None` without it; the
/// fields read are taken out of the pairs. A location takes "lat" and then,
/// only when "lat" was there, "lon". Other kinds yield `Unknown` and take
/// nothing.
pub open spec fn decoded_raw(raw: SegmentRaw, after: Seq<(String, String)>, r: Option<OneBotSegment>) -> bool {
    let k = raw.kind@;
    let kv = raw.kv@;
    if k == "text"@ {
        one_field(kv, after, "content"@, r, |s: String| OneBotSegment::Text(s))
    } else if k == "image"@ {
        one_field(kv, after, "url"@, r, |s: String| OneBotSegment::Image(s))
    } else if k == "at"@ {
        one_field(kv, after, "user_id"@, r, |s: String| OneBotSegment::At(s))
    } else if k == "record"@ {
        one_field(kv, after, "url"@, r, |s: String| OneBotSegment::Record(s))
    } else if k == "poke"@ {
        one_field(kv, after, "user_id"@, r, |s: String| OneBotSegment::Poke(s))
    } else if k == "location"@ {
        match lookup(kv, "lat"@) {
            None => r is None && after == kv,
            Some(a) => {
                let kv1 = without_first(kv, "lat"@);
                &&& after == without_first(kv1, "lon"@)
                &&& match lookup(kv1, "lon"@) {
                    Some(b) => r matches Some(OneBotSegment::Location { lat, lon }) && lat@ == a && lon@ == b,
                    None => r is None,
                }
            },
        }
    } else if k == "reply"@ {
        one_field(kv, after, "message_id"@, r, |s: String| OneBotSegment::Reply(s))
    } else if k == "forward"@ {
        one_field(kv, after, "id"@, r, |s: String| OneBotSegment::Forward(ForwardId { id: s }))
    } else {
        r == Some(OneBotSegment::Unknown) && after == kv
    }
}

/// The value of the first pair whose key is `key`.
pub fn find_value(kv: &Vec<(String, String)>, key: &str) -> (r: Option<String>)
    ensures
        match lookup(kv@, key@) {
            None => r is None,
            Some(v) => r matches Some(s) && s@ == v,
        },
{
    let wanted = String::from_str(key);
    let mut i: usize = 0;
    assert(kv@.subrange(0, kv@.len() as int) =~= kv@);
    while i < kv.len()
        invariant
            0 <= i <= kv@.len(),
            wanted@ == key@,
            lookup(kv@, key@) == lookup(kv@.subrange(i as int, kv@.len() as int), key@),
        decreases kv@.len() - i,
    {
        let ghost rest = kv@.subrange(i as int, kv@.len() as int);
        assert(rest.drop_first() =~= kv@.subrange(i as int + 1, kv@.len() as int));
        if kv[i].0 == wanted {
            return Some(kv[i].1.clone());
        }
        i = i + 1;
    }
    assert(kv@.subrange(i as int, kv@.len() as int) =~= Seq::<(String, String)>::empty());
    None
}

/// Takes the first pair whose key is `key` out of `kv` and returns its value.
pub fn take_value(kv: &mut Vec<(String, String)>, key: &str) -> (r: Option<String>)
    ensures
        final(kv)@ == without_first(old(kv)@, key@),
        match lookup(old(kv)@, key@) {
            None => r is None && final(kv)@ == old(kv)@,
            Some(v) => r matches Some(s) && s@ == v,
        },
{
    let wanted = String::from_str(key);
    let mut i: usize = 0;
    while i < kv.len()
        invariant
            0 <= i <= kv@.len(),
            wanted@ == key@,
            kv@ == old(kv)@,
            forall|j: int| 0 <= j < i ==> (#[trigger] kv@[j]).0@ != key@,
        decreases kv@.len() - i,
    {
        if kv[i].0 == wanted {
            proof {
                lemma_first_match(kv@, key@, i as int);
            }
            let (_, v) = kv.remove(i);
            return Some(v);
        }
        i = i + 1;
    }
    proof {
        lemma_no_match(kv@, key@);
    }
    None
}

fn is_kind(raw: &SegmentRaw, kind: &str) -> (r: bool)
    ensures
        r == (raw.kind@ == kind@),
{
    raw.kind == String::from_str(kind)
}

impl OneBotSegment {
    /// Reads a host segment from its raw form, taking the fields it reads out
    /// of the segment's pairs.
    pub fn from_raw_segment(segment: &mut SegmentRaw) -> (r: Option<OneBotSegment>)
        ensures
            final(segment).kind == old(segment).kind,
            decoded_raw(*old(segment), final(segment).kv@, r),
    {
        if is_kind(segment, "text") {
            let v = take_value(&mut segment.kv, "content");
            match v { Some(s) => Some(OneBotSegment::Text(s)), None => None }
        } else if is_kind(segment, "image") {
            let v = take_value(&mut segment.kv, "url");
            match v { Some(s) => Some(OneBotSegment::Image(s)), None => None }
        } else if is_kind(segment, "at") {
            let v = take_value(&mut segment.kv, "user_id");
            match v { Some(s) => Some(OneBotSegment::At(s)), None => None }
        } else if is_kind(segment, "record") {
            let v = take_value(&mut segment.kv, "url");
            match v { Some(s) => Some(OneBotSegment::Record(s)), None => None }
        } else if is_kind(segment, "poke") {
            let v = take_value(&mut segment.kv, "user_id");
            match v { Some(s) => Some(OneBotSegment::Poke(s)), None => None }
        } else if is_kind(segment, "location") {
            let a = take_value(&mut segment.kv, "lat");
            match a {
                None => None,
                Some(lat) => {
                    let b = take_value(&mut segment.kv, "lon");
                    match b {
                        Some(lon) => Some(OneBotSegment::Location { lat, lon }),
                        None => None,
                    }
                },
            }
        } else if is_kind(segment, "reply") {
            let v = take_value(&mut segment.kv, "message_id");
            match v { Some(s) => Some(OneBotSegment::Reply(s)), None => None }
        } else if is_kind(segment, "forward") {
            let v = take_value(&mut segment.kv, "id");
            match v { Some(s) => Some(OneBotSegment::Forward(ForwardId { id: s })), None => None }
        } else {
            Some(OneBotSegment::Unknown)
        }
    }
}

/// `r` is the raw form with kind `kind` and the single pair (`key`, `v`).
pub open spec fn raw_with(r: SegmentRaw, kind: Seq<char>, key: Seq<char>, v: Seq<char>) -> bool {
    &&& r.kind@ == kind
    &&& r.kv@.len() == 1
    &&& r.kv@[0].0@ == key
    &&& r.kv@[0].1@ == v
}

/// What `serialize` yields for a host segment: one pair per field; `Unknown`
/// has no raw form.
pub open spec fn encoded_raw(s: OneBotSegment, r: Option<SegmentRaw>) -> bool {
    match s {
        OneBotSegment::Text(t) => r matches Some(x) && raw_with(x, "text"@, "content"@, t@),
        OneBotSegment::Image(u) => r matches Some(x) && raw_with(x, "image"@, "url"@, u@),
        OneBotSegment::At(u) => r matches Some(x) && raw_with(x, "at"@, "user_id"@, u@),
        OneBotSegment::Record(u) => r matches Some(x) && raw_with(x, "record"@, "url"@, u@),
        OneBotSegment::Poke(u) => r matches Some(x) && raw_with(x, "poke"@, "user_id"@, u@),
        OneBotSegment::Location { lat, lon } => r matches Some(x) && {
            &&& x.kind@ == "location"@
            &&& x.kv@.len() == 2
            &&& x.kv@[0].0@ == "lat"@ && x.kv@[0].1@ == lat@
            &&& x.kv@[1].0@ == "lon"@ && x.kv@[1].1@ == lon@
        },
        OneBotSegment::Reply(m) => r matches Some(x) && raw_with(x, "reply"@, "message_id"@, m@),
        OneBotSegment::Forward(f) => r matches Some(x) && raw_with(x, "forward"@, "id"@, f.id@),
        OneBotSegment::Unknown => r is None,
    }
}

fn single(kind: &str, key: &str, v: String) -> (r: SegmentRaw)
    ensures
        raw_with(r, kind@, key@, v@),
{
    let mut kv: Vec<(String, String)> = Vec::new();
    kv.push((String::from_str(key), v));
    SegmentRaw { kind: String::from_str(kind), kv }
}

/// Converts between host segments and their raw form.
pub struct OneBotMessageSerializer;

impl OneBotMessageSerializer {
    pub fn serialize(message: OneBotSegment) -> (r: Option<SegmentRaw>)
        ensures
            encoded_raw(message, r),
    {
        match message {
            OneBotSegment::Text(t) => Some(single("text", "content", t)),
            OneBotSegment::Image(u) => Some(single("image", "url", u)),
            OneBotSegment::At(u) => Some(single("at", "user_id", u)),
            OneBotSegment::Record(u) => Some(single("record", "url", u)),
            OneBotSegment::Poke(u) => Some(single("poke", "user_id", u)),
            OneBotSegment::Location { lat, lon } => {
                let mut kv: Vec<(String, String)> = Vec::new();
                kv.push((String::from_str("lat"), lat));
                kv.push((String::from_str("lon"), lon));
                Some(SegmentRaw { kind: String::from_str("location"), kv })
            },
            OneBotSegment::Reply(m) => Some(single("reply", "message_id", m)),
            OneBotSegment::Forward(f) => Some(single("forward", "id", f.id)),
            OneBotSegment::Unknown => None,
        }
    }

    pub fn deserialize(segment: SegmentRaw) -> (r: Option<OneBotSegment>)
        ensures
            exists|after: Seq<(String, String)>| decoded_raw(segment, after, r),
    {
        let mut segment = segment;
        OneBotSegment::from_raw_segment(&mut segment)
    }
}

} // verus!
