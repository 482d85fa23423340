use leaflet::buffer::{McBuf, NetworkType};
use leaflet::identifier::Identifier;
use leaflet::location::{Location, Position};
use leaflet::game_profile::{GameProfile, GameProfileProperty};
use leaflet::nbt::{NBTTag, TagContent};
use leaflet::packets::handshake::ServerboundHandshakePacket;
use leaflet::packets::status::ServerboundStatusRequestPacket;
use leaflet::packets::configuration::{KnownPack, RegistryEntry};
use leaflet::uuid::Uuid;
use leaflet::registry::DimensionType;
use leaflet::varint::VarInt;

#[test]
fn handshake_packet_round_trip() {
    let packet = ServerboundHandshakePacket {
        protocol_version: 774,
        server_address: "mc.example.org".to_string(),
        server_port: 25565,
        intent: 2,
    };
    let mut buf = McBuf::new();
    packet.write(&mut buf);
    let mut rd = McBuf::from_bytes(buf.as_slice());
    let decoded = ServerboundHandshakePacket::read(&mut rd).unwrap();
    assert_eq!(decoded.protocol_version, 774);
    assert_eq!(decoded.server_address, "mc.example.org");
    assert_eq!(decoded.server_port, 25565);
    assert_eq!(decoded.intent, 2);
}

#[test]
fn identifier_round_trip_splits_on_first_colon() {
    let id = Identifier::new("minecraft", "the:end");
    let mut buf = McBuf::new();
    id.write(&mut buf);
    let mut rd = McBuf::from_bytes(buf.as_slice());
    let decoded = Identifier::read(&mut rd).unwrap();
    assert_eq!(decoded.full_name(), "minecraft:the:end");
}

#[test]
fn identifier_without_separator_is_rejected() {
    let mut buf = McBuf::new();
    buf.write_string("nocolonhere");
    let mut rd = McBuf::from_bytes(buf.as_slice());
    assert!(Identifier::read(&mut rd).is_err());
}

#[test]
fn uuid_round_trip_is_sixteen_bytes() {
    let u = Uuid::new(0x0011223344556677, 0x8899AABBCCDDEEFF);
    let mut buf = McBuf::new();
    u.write(&mut buf);
    assert_eq!(buf.length(), 16);
    assert_eq!(buf.as_slice()[0], 0x00);
    assert_eq!(buf.as_slice()[15], 0xFF);
    let mut rd = McBuf::from_bytes(buf.as_slice());
    assert_eq!(Uuid::read(&mut rd).unwrap(), u);
}

#[test]
fn position_packs_into_one_word() {
    let p = Position::new(100, 64, 200);
    let mut buf = McBuf::new();
    p.write(&mut buf);
    assert_eq!(buf.length(), 8);
    let mut rd = McBuf::from_bytes(buf.as_slice());
    let decoded = Position::read(&mut rd).unwrap();
    assert_eq!(decoded, p);
}

#[test]
fn position_negative_coordinates_round_trip() {
    // The 26/26/12-bit fields are signed: negative coordinates survive the
    // packing because decoding sign-extends each field.
    for p in [
        Position::new(-1, -1, -1),
        Position::new(-33554432, -2048, 33554431),
        Position::new(12345, 2047, -9876),
    ] {
        let mut buf = McBuf::new();
        p.write(&mut buf);
        let mut rd = McBuf::from_bytes(buf.as_slice());
        assert_eq!(Position::read(&mut rd).unwrap(), p);
    }
}

#[test]
fn location_round_trip() {
    let l = Location { world: Identifier::minecraft("overworld"), location: Position::new(1, 2, 3) };
    let mut buf = McBuf::new();
    l.write(&mut buf);
    let mut rd = McBuf::from_bytes(buf.as_slice());
    let decoded = Location::read(&mut rd).unwrap();
    assert_eq!(decoded.world.full_name(), "minecraft:overworld");
    assert_eq!(decoded.location, Position::new(1, 2, 3));
}

#[test]
fn game_profile_round_trip() {
    let profile = GameProfile {
        uuid: Uuid::new(1, 2),
        username: "bob".to_string(),
        properties: vec![
            GameProfileProperty {
                name: "textures".to_string(),
                value: "v".to_string(),
                signature: Some("sig".to_string()),
            },
            GameProfileProperty {
                name: "other".to_string(),
                value: "w".to_string(),
                signature: None,
            },
        ],
    };
    let mut buf = McBuf::new();
    profile.write(&mut buf);
    let mut rd = McBuf::from_bytes(buf.as_slice());
    let decoded = GameProfile::read(&mut rd).unwrap();
    assert_eq!(decoded.uuid, Uuid::new(1, 2));
    assert_eq!(decoded.username, "bob");
    assert_eq!(decoded.properties.len(), 2);
    assert_eq!(decoded.properties[0].name, "textures");
    assert_eq!(decoded.properties[0].signature.as_deref(), Some("sig"));
    assert_eq!(decoded.properties[1].signature, None);
}

#[test]
fn vec_of_known_packs_round_trip() {
    let packs = vec![
        KnownPack {
            namespace: "minecraft".to_string(),
            path: "core".to_string(),
            version: "1.21.11".to_string(),
        },
    ];
    let mut buf = McBuf::new();
    packs.write(&mut buf);
    let mut rd = McBuf::from_bytes(buf.as_slice());
    let decoded = Vec::<KnownPack>::read(&mut rd).unwrap();
    assert_eq!(decoded.len(), 1);
    assert_eq!(decoded[0].namespace, "minecraft");
    assert_eq!(decoded[0].version, "1.21.11");
}

#[test]
fn varint_wrapper_round_trip() {
    let v = VarInt::from(300);
    let mut buf = McBuf::new();
    v.write(&mut buf);
    assert_eq!(buf.as_slice(), &[0xAC, 0x02]);
    let mut rd = McBuf::from_bytes(buf.as_slice());
    assert_eq!(i32::from(VarInt::read(&mut rd).unwrap()), 300);
}

#[test]
fn option_codec_presence_flag() {
    let some: Option<VarInt> = Some(VarInt::from(5));
    let none: Option<VarInt> = None;
    let mut buf = McBuf::new();
    some.write(&mut buf);
    none.write(&mut buf);
    assert_eq!(buf.as_slice(), &[1, 5, 0]);
    let mut rd = McBuf::from_bytes(buf.as_slice());
    assert_eq!(Option::<VarInt>::read(&mut rd).unwrap(), Some(VarInt::from(5)));
    assert_eq!(Option::<VarInt>::read(&mut rd).unwrap(), None);
}

#[test]
fn registry_entry_without_payload_round_trips() {
    let entry = RegistryEntry::empty(Identifier::minecraft("overworld"));
    let mut buf = McBuf::new();
    entry.write(&mut buf);
    let mut rd = McBuf::from_bytes(buf.as_slice());
    let decoded = RegistryEntry::read(&mut rd).unwrap();
    assert_eq!(decoded.identifier.full_name(), "minecraft:overworld");
    assert!(decoded.data.is_none());
}

#[test]
fn registry_entry_with_payload_is_emitted_but_not_parsed() {
    let tag = NBTTag::compound(None, vec![NBTTag::byte(Some("b".to_string()), 3)]);
    let entry = RegistryEntry::new(Identifier::minecraft("overworld"), tag);
    let mut buf = McBuf::new();
    entry.write(&mut buf);
    // Emitted: identifier, presence 1, compound tag bytes.
    assert!(buf.length() > 20);
    let mut rd = McBuf::from_bytes(buf.as_slice());
    assert!(RegistryEntry::read(&mut rd).is_err());
}

#[test]
fn nbt_compound_wire_bytes() {
    let tag = NBTTag::compound(
        None,
        vec![
            NBTTag::byte(Some("b".to_string()), 7),
            NBTTag::string(Some("s".to_string()), "hi".to_string()),
        ],
    );
    let mut buf = McBuf::new();
    tag.write_root(&mut buf);
    assert_eq!(
        buf.as_slice(),
        &[
            10,  // compound
            1, 0, 1, b'b', 7,  // byte tag named "b" with value 7
            8, 0, 1, b's', 0, 2, b'h', b'i',  // string tag named "s" with "hi"
            0,  // end
        ],
    );
}

#[test]
fn nbt_list_wire_bytes() {
    let tag = TagContent::List(vec![
        NBTTag::int_tag(None, 1),
        NBTTag::int_tag(None, 2),
    ]);
    let mut buf = McBuf::new();
    tag.write_content(&mut buf);
    assert_eq!(
        buf.as_slice(),
        &[3, 0, 0, 0, 2, 0, 0, 0, 0, 0, 1, 0, 0, 0, 0, 0, 2],
    );
}

#[test]
fn empty_packet_has_empty_wire() {
    let mut buf = McBuf::new();
    ServerboundStatusRequestPacket.write(&mut buf);
    assert_eq!(buf.length(), 0);
    let mut rd = McBuf::from_bytes(buf.as_slice());
    assert!(ServerboundStatusRequestPacket::read(&mut rd).is_ok());
}

#[test]
fn nbt_name_round_trip() {
    let tag = NBTTag::byte(Some("light".to_string()), 3);
    let mut buf = McBuf::new();
    tag.write_name(&mut buf);
    let mut rd = McBuf::from_bytes(buf.as_slice());
    assert_eq!(NBTTag::read_name(&mut rd).unwrap().as_deref(), Some("light"));

    let unnamed = NBTTag::byte(None, 3);
    let mut buf = McBuf::new();
    unnamed.write_name(&mut buf);
    assert_eq!(buf.as_slice(), &[0, 0]);
    let mut rd = McBuf::from_bytes(buf.as_slice());
    assert_eq!(NBTTag::read_name(&mut rd).unwrap(), None);
}

#[test]
fn dimension_type_metadata_shape() {
    let dim = DimensionType::overworld();
    assert_eq!(dim.coordinate_scale_bits, 1.0f64.to_bits());
    assert_eq!(dim.ambient_light_bits, 0.0f32.to_bits());
    let tag = dim.to_nbt();
    let mut buf = McBuf::new();
    tag.write_root(&mut buf);
    let text = String::from_utf8_lossy(buf.as_slice());
    assert!(text.contains("coordinate_scale"));
    assert!(text.contains("monster_spawn_block_light_limit"));
    assert!(text.contains("default"));
}
