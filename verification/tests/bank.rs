use azilis_parser::cursor::Cursor;
use azilis_parser::decode::Record;
use azilis_parser::error::ParseError;
use azilis_parser::hierarchy::music::{AudioPathElement, MusicPathEndpoint};
use azilis_parser::hierarchy::HierarchyObjectType;
use azilis_parser::{
    parse, BankHeaderChunk, ChunkName, SoundbankChunk, SoundbankChunkHeader, SoundbankChunkTypes,
};

fn bk_u32(out: &mut Vec<u8>, v: u32) {
    out.extend_from_slice(&v.to_le_bytes());
}

fn bk_header_chunk(version: u32) -> Vec<u8> {
    let mut out = b"BKHD".to_vec();
    bk_u32(&mut out, 24);
    bk_u32(&mut out, version);
    bk_u32(&mut out, 0x0BA2_0001);
    bk_u32(&mut out, 0x0000_0ACE);
    out.extend_from_slice(&[0xEE; 8]);
    bk_u32(&mut out, 0x0000_4242);
    out
}

fn bk_hierarchy_chunk(count: u32, objects: &[u8]) -> Vec<u8> {
    let mut out = b"HIRC".to_vec();
    bk_u32(&mut out, 4 + objects.len() as u32);
    bk_u32(&mut out, count);
    out.extend_from_slice(objects);
    out
}

fn bk_object(tag: u8, body: &[u8]) -> Vec<u8> {
    let mut out = vec![tag];
    bk_u32(&mut out, body.len() as u32);
    out.extend_from_slice(body);
    out
}

fn bk_record(from_id: u32, link: u32, weight: u16, probability: u16) -> Vec<u8> {
    let mut out = Vec::new();
    bk_u32(&mut out, from_id);
    bk_u32(&mut out, link);
    out.extend_from_slice(&weight.to_le_bytes());
    out.extend_from_slice(&probability.to_le_bytes());
    out
}

fn bk_container(id: u32, path_len: u32, blob: &[u8]) -> Vec<u8> {
    let mut out = Vec::new();
    bk_u32(&mut out, id);
    out.push(0);
    out.extend_from_slice(&[0; 32]); // properties
    bk_u32(&mut out, 0); // children
    out.extend_from_slice(&[0; 23]); // timing
    bk_u32(&mut out, 0); // stingers
    bk_u32(&mut out, 0); // transitions
    out.push(0);
    bk_u32(&mut out, 0); // groups
    bk_u32(&mut out, path_len);
    out.push(0);
    out.extend_from_slice(blob);
    out
}

#[test]
fn chunk_names_are_big_endian_words() {
    assert_eq!(ChunkName::from_word(u32::from_be_bytes(*b"BKHD")), ChunkName::BKHD);
    assert_eq!(ChunkName::from_word(u32::from_be_bytes(*b"HIRC")), ChunkName::HIRC);
    assert_eq!(ChunkName::from_word(u32::from_be_bytes(*b"INIT")), ChunkName::INIT);
    assert_eq!(ChunkName::from_word(u32::from_be_bytes(*b"STMG")), ChunkName::STMG);
    assert_eq!(ChunkName::from_word(u32::from_be_bytes(*b"STID")), ChunkName::STID);
    assert_eq!(ChunkName::from_word(u32::from_be_bytes(*b"PLAT")), ChunkName::PLAT);
    assert_eq!(ChunkName::from_word(u32::from_be_bytes(*b"DIDX")), ChunkName::DIDX);
    assert_eq!(ChunkName::from_word(u32::from_be_bytes(*b"DATA")), ChunkName::DATA);
    assert_eq!(ChunkName::from_word(u32::from_be_bytes(*b"ENVS")), ChunkName::ENVS);
    assert_eq!(ChunkName::from_word(0x424B_4844), ChunkName::BKHD);
    // the same characters read little-endian are another name
    assert_eq!(
        ChunkName::from_word(u32::from_le_bytes(*b"BKHD")),
        ChunkName::Other(0x4448_4B42)
    );
    assert_eq!(ChunkName::from_word(0), ChunkName::Other(0));
}

#[test]
fn chunk_header_record() {
    let data = [b'H', b'I', b'R', b'C', 0x10, 0x20, 0x30, 0x40];
    let mut cur = Cursor::new(&data);
    assert_eq!(
        SoundbankChunkHeader::read(&mut cur),
        Some(SoundbankChunkHeader { name: ChunkName::HIRC, len: 0x4030_2010 })
    );
    assert_eq!(cur.position(), 8);
    assert_eq!(SoundbankChunkHeader::read(&mut Cursor::new(&data[..7])), None);
}

#[test]
fn bank_header_fields() {
    let data = bk_header_chunk(0x8C);
    let mut cur = Cursor::new(&data[8..]);
    let header = BankHeaderChunk::read(&mut cur).unwrap();
    assert_eq!(
        header,
        BankHeaderChunk { ver: 0x8C, id: 0x0BA2_0001, language_id: 0x0ACE, project_id: 0x4242 }
    );
    assert_eq!(cur.position(), 24);
}

#[test]
fn bank_header_needs_the_version() {
    for version in [0u32, 0x8B, 0x8D, 0x8C00_0000, 0x018C, u32::MAX] {
        let data = bk_header_chunk(version);
        assert_eq!(BankHeaderChunk::read(&mut Cursor::new(&data[8..])), None);
        let mut bank = data.clone();
        bank.extend(bk_hierarchy_chunk(0, &[]));
        assert_eq!(parse(&bank), Err(ParseError::InvalidSoundbankHeader));
    }
    let mut bank = bk_header_chunk(0x8C);
    bank.extend(bk_hierarchy_chunk(0, &[]));
    assert!(parse(&bank).is_ok());
}

#[test]
fn truncated_bank_header_fails() {
    let data = bk_header_chunk(0x8C);
    for len in 0..24 {
        assert_eq!(BankHeaderChunk::read(&mut Cursor::new(&data[8..8 + len])), None);
    }
}

#[test]
fn bank_with_empty_hierarchy() {
    let mut bank = bk_header_chunk(0x8C);
    bank.extend(bk_hierarchy_chunk(0, &[]));
    let chunks = parse(&bank).unwrap();
    assert_eq!(chunks.len(), 2);
    assert_eq!(chunks[0].header, SoundbankChunkHeader { name: ChunkName::BKHD, len: 24 });
    assert_eq!(
        chunks[0].chunk,
        SoundbankChunkTypes::BankHeader(BankHeaderChunk {
            ver: 0x8C,
            id: 0x0BA2_0001,
            language_id: 0x0ACE,
            project_id: 0x4242,
        })
    );
    assert_eq!(chunks[1].header, SoundbankChunkHeader { name: ChunkName::HIRC, len: 4 });
    let SoundbankChunkTypes::Hierarchy(hirc) = &chunks[1].chunk else {
        panic!("expected the hierarchy");
    };
    assert_eq!(hirc.object_count, 0);
    assert!(hirc.objects.is_empty());
}

#[test]
fn missing_chunks_fail() {
    assert_eq!(parse(&[]), Err(ParseError::InvalidSoundbankHeader));
    let bank = bk_header_chunk(0x8C);
    assert_eq!(parse(&bank), Err(ParseError::InvalidSoundbankHeader));
    for len in 0..bank.len() {
        assert_eq!(parse(&bank[..len]), Err(ParseError::InvalidSoundbankHeader));
    }
    let mut two = bank.clone();
    two.extend_from_slice(b"HIRC\x04\x00\x00\x00\x01\x00");
    assert_eq!(parse(&two), Err(ParseError::InvalidSoundbankHeader));
}

#[test]
fn unprocessed_chunks_are_placeholders() {
    let names: [(&[u8; 4], SoundbankChunkTypes, ChunkName); 8] = [
        (b"INIT", SoundbankChunkTypes::Init, ChunkName::INIT),
        (b"STMG", SoundbankChunkTypes::GlobalSettings, ChunkName::STMG),
        (b"STID", SoundbankChunkTypes::SoundbankIdToString, ChunkName::STID),
        (b"PLAT", SoundbankChunkTypes::Platform, ChunkName::PLAT),
        (b"DIDX", SoundbankChunkTypes::MediaIndex, ChunkName::DIDX),
        (b"DATA", SoundbankChunkTypes::Data, ChunkName::DATA),
        (b"ENVS", SoundbankChunkTypes::EnvironmentSettings, ChunkName::ENVS),
        (b"XYZW", SoundbankChunkTypes::Unknown, ChunkName::Other(0x5859_5A57)),
    ];
    for (name, kind, chunk_name) in names {
        let mut bank = bk_header_chunk(0x8C);
        bank.extend_from_slice(name);
        bk_u32(&mut bank, 0);
        let chunks = parse(&bank).unwrap();
        assert_eq!(chunks[1].header.name, chunk_name);
        assert_eq!(chunks[1].chunk, kind);
    }
}

#[test]
fn objects_follow_the_two_chunks() {
    let mut objects = bk_object(1, &[]);
    objects.extend(bk_object(21, &[1, 2, 3]));
    objects.extend(bk_object(4, &[7, 0, 0, 0, 0]));
    let mut bank = bk_header_chunk(0x8C);
    bank.extend(bk_hierarchy_chunk(3, &objects));
    let chunks = parse(&bank).unwrap();
    let SoundbankChunkTypes::Hierarchy(hirc) = &chunks[1].chunk else {
        panic!("expected the hierarchy");
    };
    assert_eq!(hirc.object_count, 3);
    assert_eq!(hirc.objects.len(), 3);
    assert_eq!(hirc.objects[0].obj, HierarchyObjectType::Settings);
    assert_eq!(hirc.objects[1].obj, HierarchyObjectType::Unknown);
    assert!(matches!(hirc.objects[2].obj, HierarchyObjectType::Event(_)));
}

#[test]
fn missing_object_fails_the_bank() {
    let objects = bk_object(1, &[]);
    let mut bank = bk_header_chunk(0x8C);
    bank.extend(bk_hierarchy_chunk(2, &objects));
    assert_eq!(parse(&bank), Err(ParseError::InvalidObject));
}

#[test]
fn switch_container_gets_its_tree() {
    let mut blob = bk_record(7, 1 | (1 << 16), 50, 100);
    blob.extend(bk_record(0x1111, 0x00C0_FFEE, 3, 4));
    let objects = bk_object(12, &bk_container(0x51, 24, &blob));
    let mut bank = bk_header_chunk(0x8C);
    bank.extend(bk_hierarchy_chunk(1, &objects));
    let chunks = parse(&bank).unwrap();
    let SoundbankChunkTypes::Hierarchy(hirc) = &chunks[1].chunk else {
        panic!("expected the hierarchy");
    };
    let HierarchyObjectType::MusicSwitchContainer(sw) = &hirc.objects[0].obj else {
        panic!("expected a switch container");
    };
    assert_eq!(sw.id, 0x51);
    assert_eq!(sw.path_sections, blob);
    assert_eq!(sw.paths.from_id, 7);
    assert_eq!(sw.paths.weight, 50);
    assert_eq!(sw.paths.probability, 100);
    assert_eq!(sw.paths.children_start_at_index, 1);
    assert_eq!(
        sw.paths.children,
        vec![AudioPathElement::MusicEndpoint(MusicPathEndpoint {
            from_id: 0x1111,
            weight: 3,
            probability: 4,
            audio_id: 0x00C0_FFEE,
        })]
    );
}

#[test]
fn leaf_root_leaves_the_container_without_tree() {
    let blob = bk_record(7, 0, 1, 2);
    let objects = bk_object(12, &bk_container(0x51, 12, &blob));
    let mut bank = bk_header_chunk(0x8C);
    bank.extend(bk_hierarchy_chunk(1, &objects));
    let chunks = parse(&bank).unwrap();
    let SoundbankChunkTypes::Hierarchy(hirc) = &chunks[1].chunk else {
        panic!("expected the hierarchy");
    };
    let HierarchyObjectType::MusicSwitchContainer(sw) = &hirc.objects[0].obj else {
        panic!("expected a switch container");
    };
    assert_eq!(sw.paths.from_id, 0);
    assert!(sw.paths.children.is_empty());
}

#[test]
fn unaligned_table_fails_the_bank() {
    let objects = bk_object(12, &bk_container(0x51, 13, &[0; 13]));
    let mut bank = bk_header_chunk(0x8C);
    bank.extend(bk_hierarchy_chunk(1, &objects));
    assert_eq!(parse(&bank), Err(ParseError::PathLengthNotAligned));
}

#[test]
fn empty_table_fails_the_bank() {
    let objects = bk_object(12, &bk_container(0x51, 0, &[]));
    let mut bank = bk_header_chunk(0x8C);
    bank.extend(bk_hierarchy_chunk(1, &objects));
    assert_eq!(parse(&bank), Err(ParseError::PathIndexOutOfBounds));
}

#[test]
fn first_failing_container_gives_the_reason() {
    let mut objects = bk_object(12, &bk_container(1, 0, &[]));
    objects.extend(bk_object(12, &bk_container(2, 13, &[0; 13])));
    let mut bank = bk_header_chunk(0x8C);
    bank.extend(bk_hierarchy_chunk(2, &objects));
    assert_eq!(parse(&bank), Err(ParseError::PathIndexOutOfBounds));
}

#[test]
fn chunk_clone_is_equal() {
    let blob = bk_record(7, 0, 1, 2);
    let objects = bk_object(12, &bk_container(0x51, 12, &blob));
    let mut bank = bk_header_chunk(0x8C);
    bank.extend(bk_hierarchy_chunk(1, &objects));
    let chunks = parse(&bank).unwrap();
    let copy: Vec<SoundbankChunk> = chunks.iter().map(|c| c.clone()).collect();
    assert_eq!(copy, chunks);
}

#[test]
fn error_messages() {
    assert_eq!(ParseError::InvalidSoundbankHeader.message(), "Invalid Soundbank Header");
    assert_eq!(
        ParseError::PathLengthNotAligned.message(),
        "path_selection_length should be exactly multiple of 0xC"
    );
    assert_eq!(ParseError::PathIndexOutOfBounds.message(), "Index exceeded path size");
    assert!(!ParseError::InvalidObject.message().is_empty());
}
