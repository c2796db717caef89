use sithra_onebot::config::{api_endpoint, event_endpoint, join_url, OneBotConfig, OneBotGenericId};
use sithra_onebot::event::{
    build_user, to_host_event, ChannelType, InternalGroupMessage, InternalMessageEvent,
    InternalPrivateMessage, MessageSender,
};
use sithra_onebot::message::{
    segments_to_host, AtData, ContactData, ContactType, ForwardData, ForwardId,
    InternalForwardMessage, InternalSegment, LocationData, MediaData, OneBotSegment, PokeData,
    ReplyData, ShareData, TextData,
};

fn s(x: &str) -> String {
    x.to_string()
}

#[test]
fn wire_segments_map_to_host_segments() {
    assert_eq!(
        OneBotSegment::from(InternalSegment::Text(TextData { text: s("hi") })),
        OneBotSegment::Text(s("hi"))
    );
    assert_eq!(
        OneBotSegment::from(InternalSegment::Image(MediaData { file: s("a.png") })),
        OneBotSegment::Image(s("a.png"))
    );
    assert_eq!(
        OneBotSegment::from(InternalSegment::Record(MediaData { file: s("a.amr") })),
        OneBotSegment::Record(s("a.amr"))
    );
    assert_eq!(
        OneBotSegment::from(InternalSegment::At(AtData { id: Some(s("1")), qq: Some(s("2")) })),
        OneBotSegment::At(s("1"))
    );
    assert_eq!(
        OneBotSegment::from(InternalSegment::At(AtData { id: None, qq: Some(s("2")) })),
        OneBotSegment::At(s("2"))
    );
    assert_eq!(
        OneBotSegment::from(InternalSegment::At(AtData { id: None, qq: None })),
        OneBotSegment::Text(s("[@]"))
    );
    assert_eq!(
        OneBotSegment::from(InternalSegment::Poke(PokeData { poke_type: s("poke"), id: s("9") })),
        OneBotSegment::Poke(s("9"))
    );
    assert_eq!(
        OneBotSegment::from(InternalSegment::Location(LocationData { lat: s("1.5"), lon: s("2") })),
        OneBotSegment::Location { lat: s("1.5"), lon: s("2") }
    );
    assert_eq!(
        OneBotSegment::from(InternalSegment::Reply(ReplyData { id: s("77") })),
        OneBotSegment::Reply(s("77"))
    );
    assert_eq!(
        OneBotSegment::from(InternalSegment::Forward(ForwardData { id: s("f") })),
        OneBotSegment::Forward(ForwardId::new(s("f")))
    );
    assert_eq!(
        OneBotSegment::from(InternalSegment::Share(ShareData { url: s("u") })),
        OneBotSegment::Unknown
    );
    assert_eq!(
        OneBotSegment::from(InternalSegment::Contact(ContactData {
            contact_type: ContactType::QQ,
            id: s("3")
        })),
        OneBotSegment::Unknown
    );
    assert_eq!(OneBotSegment::from(InternalSegment::Unknown), OneBotSegment::Unknown);
}

#[test]
fn host_segments_map_to_wire_segments() {
    assert_eq!(
        InternalSegment::from(OneBotSegment::text(s("hi"))),
        InternalSegment::Text(TextData { text: s("hi") })
    );
    assert_eq!(
        InternalSegment::from(OneBotSegment::img(s("a"))),
        InternalSegment::Image(MediaData { file: s("a") })
    );
    assert_eq!(
        InternalSegment::from(OneBotSegment::at(s("5"))),
        InternalSegment::At(AtData { id: Some(s("5")), qq: None })
    );
    assert_eq!(
        InternalSegment::from(OneBotSegment::record(s("r"))),
        InternalSegment::Record(MediaData { file: s("r") })
    );
    assert_eq!(
        InternalSegment::from(OneBotSegment::poke(s("6"))),
        InternalSegment::Poke(PokeData { poke_type: s("poke"), id: s("6") })
    );
    assert_eq!(
        InternalSegment::from(OneBotSegment::location(s("3"), s("4"))),
        InternalSegment::Location(LocationData { lat: s("3"), lon: s("4") })
    );
    assert_eq!(
        InternalSegment::from(OneBotSegment::reply(s("8"))),
        InternalSegment::Reply(ReplyData { id: s("8") })
    );
    assert_eq!(
        InternalSegment::from(OneBotSegment::forward(ForwardId::new(s("fw")))),
        InternalSegment::Forward(ForwardData { id: s("fw") })
    );
    assert_eq!(InternalSegment::from(OneBotSegment::Unknown), InternalSegment::Unknown);
    assert_eq!(ForwardId::new(s("z")).to_string(), "z");
}

#[test]
fn segment_lists_keep_their_order() {
    let host = segments_to_host(vec![
        InternalSegment::Text(TextData { text: s("a") }),
        InternalSegment::Unknown,
        InternalSegment::Reply(ReplyData { id: s("1") }),
    ]);
    assert_eq!(
        host,
        vec![OneBotSegment::Text(s("a")), OneBotSegment::Unknown, OneBotSegment::Reply(s("1"))]
    );
    assert!(segments_to_host(Vec::new()).is_empty());
}

#[test]
fn forward_node_carries_decimal_user_id() {
    let node = InternalForwardMessage::new(123456789, s("nick"), vec![InternalSegment::Unknown]);
    assert_eq!(node.kind, "node");
    assert_eq!(node.data.user_id, "123456789");
    assert_eq!(node.data.nickname, "nick");
    assert_eq!(node.data.content, vec![InternalSegment::Unknown]);
}

#[test]
fn endpoints_are_suffixed_paths() {
    assert_eq!(join_url("ws://host:1", "api"), "ws://host:1/api");
    assert_eq!(join_url("ws://host:1/", "api"), "ws://host:1/api");
    assert_eq!(join_url("", "api"), "/api");
    let config = OneBotConfig { ws_url: s("ws://h"), self_id: s("bot") };
    assert_eq!(api_endpoint(&config), "ws://h//api");
    assert_eq!(event_endpoint(&config), "ws://h//event");
    assert_eq!(OneBotGenericId::from_config(&config).self_id, "bot");
}

#[test]
fn private_message_event_for_host() {
    let event = InternalMessageEvent::Private(InternalPrivateMessage {
        message_id: 10,
        user_id: 42,
        message: vec![InternalSegment::Text(TextData { text: s("yo") })],
        sender: MessageSender { nickname: None, card: Some(s("ignored")) },
    });
    let host = to_host_event(&OneBotGenericId { self_id: s("bot") }, event);
    assert_eq!(host.generic_id.self_id, "bot");
    assert_eq!(host.channel.id, 42);
    assert_eq!(host.channel.channel_type, ChannelType::Private);
    assert_eq!(host.user.id, 42);
    assert_eq!(host.user.name, "Unknown");
    assert_eq!(host.user.card, None);
    assert_eq!(host.message.id(), Some(10));
    assert_eq!(host.message.segments, vec![OneBotSegment::Text(s("yo"))]);
}

#[test]
fn group_message_event_for_host() {
    let event = InternalMessageEvent::Group(InternalGroupMessage {
        message_id: 11,
        user_id: 5,
        group_id: 900,
        message: vec![],
        sender: MessageSender { nickname: Some(s("ann")), card: Some(s("A")) },
    });
    let host = to_host_event(&OneBotGenericId { self_id: s("bot") }, event);
    assert_eq!(host.channel.id, 900);
    assert_eq!(host.channel.channel_type, ChannelType::Group);
    assert_eq!(host.user.id, 5);
    assert_eq!(host.user.name, "ann");
    assert_eq!(host.user.card, Some(s("A")));
    assert!(host.message.segments.is_empty());
    assert_eq!(build_user(1, Some(s("x")), None).name, "x");
}

fn generic_id(pairs: &[(&str, &str)]) -> sithra_onebot::config::GenericId {
    sithra_onebot::config::GenericId { kv: pairs.iter().map(|(k, v)| (s(k), s(v))).collect() }
}

#[test]
fn adapter_identity_from_host_ids() {
    let id = generic_id(&[("type", "onebot"), ("self_id", "bot1")]);
    assert_eq!(OneBotGenericId::ensure_generic_id(&id).unwrap().self_id, "bot1");
    assert_eq!(
        OneBotGenericId::ensure_generic_id(&generic_id(&[("type", "onebot")])),
        Err(s("self_id not found"))
    );
    assert!(OneBotGenericId::match_adapter(&generic_id(&[("self_id", "onebot"), ("type", "onebot")])));
    assert!(!OneBotGenericId::match_adapter(&generic_id(&[("self_id", "bot1"), ("type", "onebot")])));
    assert!(!OneBotGenericId::match_adapter(&generic_id(&[("self_id", "onebot")])));
    assert!(!OneBotGenericId::match_adapter(&generic_id(&[])));
    let back = OneBotGenericId { self_id: s("me") }.to_generic_id();
    assert_eq!(back, generic_id(&[("type", "onebot"), ("self_id", "me")]));
}
