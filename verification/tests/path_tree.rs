use azilis_parser::error::ParseError;
use azilis_parser::hierarchy::music::{
    build_path_element, AudioPathElement, MusicPathEndpoint, MusicSwitchContainer,
};

fn record(from_id: u32, link: u32, weight: u16, probability: u16) -> Vec<u8> {
    let mut out = Vec::new();
    out.extend_from_slice(&from_id.to_le_bytes());
    out.extend_from_slice(&link.to_le_bytes());
    out.extend_from_slice(&weight.to_le_bytes());
    out.extend_from_slice(&probability.to_le_bytes());
    out
}

fn link(start: u16, count: u16) -> u32 {
    (start as u32) | ((count as u32) << 16)
}

fn container(blob: Vec<u8>) -> MusicSwitchContainer {
    let mut sw = MusicSwitchContainer::default();
    sw.path_selection_length = blob.len() as u32;
    sw.path_sections = blob;
    sw
}

#[test]
fn root_with_one_leaf_child() {
    let mut blob = record(7, link(1, 1), 50, 100);
    blob.extend(record(0x1111, 0xDEAD_BEEF, 3, 4));
    let mut sw = container(blob);
    let root = sw.read_path_element(0).unwrap();
    match root {
        AudioPathElement::AudioPath(node) => {
            assert_eq!(node.from_id, 7);
            assert_eq!(node.weight, 50);
            assert_eq!(node.probability, 100);
            assert_eq!(node.children_start_at_index, 1);
            assert_eq!(node.children.len(), 1);
            assert_eq!(
                node.children[0],
                AudioPathElement::MusicEndpoint(MusicPathEndpoint {
                    from_id: 0x1111,
                    weight: 3,
                    probability: 4,
                    audio_id: 0xDEAD_BEEF,
                })
            );
        }
        other => panic!("expected an inner node, got {:?}", other),
    }
}

#[test]
fn length_not_multiple_of_twelve_fails() {
    for len in [1u32, 11, 13, 23, 25] {
        let mut sw = container(vec![0u8; 24]);
        sw.path_selection_length = len;
        assert_eq!(sw.read_path_element(0), Err(ParseError::PathLengthNotAligned));
    }
}

#[test]
fn index_beyond_table_fails() {
    let mut sw = container(record(1, 2, 3, 4));
    assert_eq!(sw.read_path_element(1), Err(ParseError::PathIndexOutOfBounds));
    assert_eq!(sw.read_path_element(2), Err(ParseError::PathIndexOutOfBounds));
    assert!(sw.read_path_element(0).is_ok());
}

#[test]
fn empty_table_has_no_root() {
    let mut sw = container(Vec::new());
    assert_eq!(sw.read_path_element(0), Err(ParseError::PathIndexOutOfBounds));
}

#[test]
fn self_reference_is_leaf() {
    // record 1 names itself as its first child
    let mut blob = record(9, link(1, 1), 0, 0);
    blob.extend(record(5, link(1, 1), 8, 9));
    let leaf = build_path_element(&blob, 1).unwrap();
    assert_eq!(
        leaf,
        AudioPathElement::MusicEndpoint(MusicPathEndpoint {
            from_id: 5,
            weight: 8,
            probability: 9,
            audio_id: link(1, 1),
        })
    );
}

#[test]
fn backward_reference_is_leaf() {
    let mut blob = record(1, link(1, 1), 0, 0);
    blob.extend(record(2, link(0, 1), 0, 0));
    let root = build_path_element(&blob, 0).unwrap();
    match root {
        AudioPathElement::AudioPath(node) => {
            assert_eq!(node.children.len(), 1);
            assert_eq!(
                node.children[0],
                AudioPathElement::MusicEndpoint(MusicPathEndpoint {
                    from_id: 2,
                    weight: 0,
                    probability: 0,
                    audio_id: link(0, 1),
                })
            );
        }
        other => panic!("expected an inner node, got {:?}", other),
    }
}

#[test]
fn children_beyond_table_make_a_leaf() {
    // two records; record 0 claims two children from index 1 on
    let mut blob = record(1, link(1, 2), 0, 0);
    blob.extend(record(2, 77, 0, 0));
    let root = build_path_element(&blob, 0).unwrap();
    assert_eq!(
        root,
        AudioPathElement::MusicEndpoint(MusicPathEndpoint {
            from_id: 1,
            weight: 0,
            probability: 0,
            audio_id: link(1, 2),
        })
    );
}

#[test]
fn first_child_at_record_count_makes_a_leaf() {
    let blob = record(1, link(1, 0), 0, 0);
    let root = build_path_element(&blob, 0).unwrap();
    assert!(matches!(root, AudioPathElement::MusicEndpoint(_)));
}

#[test]
fn inner_node_without_children() {
    let mut blob = record(1, link(1, 0), 0, 0);
    blob.extend(record(2, 0, 0, 0));
    let root = build_path_element(&blob, 0).unwrap();
    match root {
        AudioPathElement::AudioPath(node) => assert!(node.children.is_empty()),
        other => panic!("expected an inner node, got {:?}", other),
    }
}

#[test]
fn nested_tree_in_ascending_order() {
    // 0 -> [1, 2]; 1 -> [3]; 2 leaf; 3 leaf
    let mut blob = record(10, link(1, 2), 0, 0);
    blob.extend(record(11, link(3, 1), 0, 0));
    blob.extend(record(12, 0xAAAA_0000, 0, 0));
    blob.extend(record(13, 0xBBBB_0000, 0, 0));
    let root = build_path_element(&blob, 0).unwrap();
    let AudioPathElement::AudioPath(root) = root else {
        panic!("expected an inner node");
    };
    assert_eq!(root.children.len(), 2);
    let AudioPathElement::AudioPath(first) = &root.children[0] else {
        panic!("expected an inner node");
    };
    assert_eq!(first.from_id, 11);
    assert_eq!(first.children_start_at_index, 3);
    assert_eq!(first.children.len(), 1);
    assert!(matches!(
        &first.children[0],
        AudioPathElement::MusicEndpoint(MusicPathEndpoint { from_id: 13, audio_id: 0xBBBB_0000, .. })
    ));
    assert!(matches!(
        &root.children[1],
        AudioPathElement::MusicEndpoint(MusicPathEndpoint { from_id: 12, audio_id: 0xAAAA_0000, .. })
    ));
}

#[test]
fn trailing_partial_record_is_ignored() {
    let mut blob = record(1, 2, 3, 4);
    blob.extend_from_slice(&[0xFF; 5]);
    assert!(build_path_element(&blob, 0).is_ok());
    assert_eq!(build_path_element(&blob, 1), Err(ParseError::PathIndexOutOfBounds));
}

#[test]
fn cloned_tree_is_equal() {
    let mut blob = record(10, link(1, 2), 0, 0);
    blob.extend(record(11, 1, 0, 0));
    blob.extend(record(12, 2, 0, 0));
    let root = build_path_element(&blob, 0).unwrap();
    assert_eq!(root.clone(), root);
}

#[test]
fn reading_the_tree_leaves_the_container_alone() {
    let mut blob = record(7, link(1, 1), 50, 100);
    blob.extend(record(1, 2, 3, 4));
    let mut sw = container(blob);
    let before = sw.clone();
    let _ = sw.read_path_element(0).unwrap();
    assert_eq!(sw, before);
}
