use pax_runtime::coproduct::TypesCoproduct;
use pax_runtime::engine::{
    compute_frame_patch, compute_text_patch, get_size_calc, NodeKind, PatchCache, PaxEngine,
    RenderNode, TextNode, TickError,
};
use pax_runtime::property::PropertyLiteral;
use pax_runtime::geometry::{Affine, Size, UNIT};
use pax_runtime::message::NativeMessage;
use pax_runtime::registry::InstanceRegistry;
use pax_runtime::transform::Transform2D;

#[test]
fn remount_after_deregister() {
    let mut r = InstanceRegistry::new();
    let path = vec![0u32, 3];
    r.mark_mounted(5, &path);
    r.mark_mounted(5, &vec![1]);
    r.mark_mounted(6, &path);
    assert!(r.is_mounted(5, &path));
    r.deregister(5);
    assert!(!r.is_mounted(5, &path));
    assert!(!r.is_mounted(5, &vec![1]));
    assert!(r.is_mounted(6, &path));
    r.mark_mounted(6, &vec![]);
    assert!(!r.is_mounted(5, &path));
    r.mark_mounted(5, &path);
    assert!(r.is_mounted(5, &path));
}

#[test]
fn transient_unmount_keeps_other_paths() {
    let mut r = InstanceRegistry::new();
    r.mark_mounted(9, &vec![0]);
    r.mark_mounted(9, &vec![1]);
    r.mark_unmounted(9, &vec![0]);
    assert!(!r.is_mounted(9, &vec![0]));
    assert!(r.is_mounted(9, &vec![1]));
    r.mark_mounted(9, &vec![0]);
    assert!(r.is_mounted(9, &vec![0]));
}

fn text_scene(content: &str) -> PaxEngine {
    let text = RenderNode::text(2, String::from(content), None, Transform2D::identity());
    let root = RenderNode::group(1, Transform2D::identity(), vec![text]);
    PaxEngine::new(root, (400, 300))
}

#[test]
fn text_change_sends_one_update() {
    let mut engine = text_scene("A");
    let first = engine.tick().unwrap();
    assert_eq!(first.len(), 2);
    match &first[0] {
        NativeMessage::TextCreate(p) => {
            assert_eq!(p.id_chain, vec![2]);
            assert!(p.clipping_ids.is_empty());
        },
        _ => panic!("expected a creation"),
    }
    match &first[1] {
        NativeMessage::TextUpdate(p) => {
            assert_eq!(p.content.as_deref(), Some("A"));
            assert_eq!(p.size_x, Some(400));
            assert_eq!(p.size_y, Some(300));
            assert_eq!(p.transform, Some(vec![UNIT, 0, 0, UNIT, 0, 0]));
        },
        _ => panic!("expected an update"),
    }
    engine.root.children[0].set_text(String::from("B"));
    let second = engine.tick().unwrap();
    assert_eq!(second.len(), 1);
    match &second[0] {
        NativeMessage::TextUpdate(p) => {
            assert_eq!(p.id_chain, vec![2]);
            assert_eq!(p.content.as_deref(), Some("B"));
            assert_eq!(p.size_x, None);
            assert_eq!(p.size_y, None);
            assert_eq!(p.transform, None);
        },
        _ => panic!("expected an update"),
    }
    assert_eq!(engine.frames_elapsed, 2);
    let third = engine.tick().unwrap();
    assert!(third.is_empty());
}

#[test]
fn viewport_change_resizes_text() {
    let mut engine = text_scene("A");
    engine.tick().unwrap();
    engine.set_viewport_size((500, 300));
    let msgs = engine.tick().unwrap();
    assert_eq!(msgs.len(), 1);
    match &msgs[0] {
        NativeMessage::TextUpdate(p) => {
            assert_eq!(p.size_x, Some(500));
            assert_eq!(p.size_y, None);
            assert_eq!(p.content, None);
        },
        _ => panic!("expected an update"),
    }
}

#[test]
fn frame_clips_its_descendants() {
    let text = RenderNode::text(
        3,
        String::from("x"),
        Some((Size::Percent(50), Size::Pixels(20))),
        Transform2D::translate(1, 2),
    );
    let frame = RenderNode::frame(2, Some((Size::Pixels(100), Size::Pixels(80))), Transform2D::identity(), vec![text]);
    let root = RenderNode::group(1, Transform2D::identity(), vec![frame]);
    let mut engine = PaxEngine::new(root, (400, 300));
    let msgs = engine.tick().unwrap();
    assert_eq!(msgs.len(), 4);
    assert!(matches!(&msgs[0], NativeMessage::FrameCreate(_)));
    assert!(matches!(&msgs[1], NativeMessage::FrameUpdate(_)));
    match &msgs[2] {
        NativeMessage::TextCreate(p) => assert_eq!(p.clipping_ids, vec![vec![2]]),
        _ => panic!("expected a creation"),
    }
    match &msgs[3] {
        NativeMessage::TextUpdate(p) => {
            assert_eq!(p.size_x, Some(50));
            assert_eq!(p.size_y, Some(20));
            assert_eq!(p.transform, Some(vec![UNIT, 0, 0, UNIT, UNIT, 2 * UNIT]));
        },
        _ => panic!("expected an update"),
    }
}

#[test]
fn removing_a_subtree_deletes_and_deregisters() {
    let mut engine = text_scene("A");
    engine.tick().unwrap();
    assert!(engine.instance_registry.is_mounted(2, &vec![]));
    let msgs = engine.remove_root_child(0);
    assert_eq!(msgs.len(), 1);
    match &msgs[0] {
        NativeMessage::TextDelete(ids) => assert_eq!(ids, &vec![2]),
        _ => panic!("expected a deletion"),
    }
    assert!(!engine.instance_registry.is_mounted(2, &vec![]));
    assert!(engine.root.children.is_empty());
}

#[test]
fn pixel_align_ends_the_tick() {
    let text = RenderNode::text(
        4,
        String::from("x"),
        None,
        Transform2D::align(Size::Pixels(1), Size::Percent(0)),
    );
    let root = RenderNode::group(1, Transform2D::identity(), vec![text]);
    let mut engine = PaxEngine::new(root, (10, 10));
    assert_eq!(engine.tick().err(), Some(TickError::AlignNotPercent(4)));
}

#[test]
fn size_calc_per_axis() {
    assert_eq!(get_size_calc(None, (640, 480)), (640, 480));
    assert_eq!(get_size_calc(Some((Size::Pixels(200), Size::Percent(50))), (640, 480)), (200, 240));
}

#[test]
fn patch_diffs_only_changed_fields() {
    let mut cache = PatchCache::new();
    let ids = vec![7u32];
    let m = Affine::translate(UNIT, 0);
    let first = compute_text_patch(&mut cache, &ids, &String::from("hi"), (10, 20), m).unwrap();
    assert_eq!(first.content.as_deref(), Some("hi"));
    assert_eq!(first.size_x, Some(10));
    assert!(compute_text_patch(&mut cache, &ids, &String::from("hi"), (10, 20), m).is_none());
    let moved = compute_text_patch(&mut cache, &ids, &String::from("hi"), (10, 21), Affine::identity()).unwrap();
    assert_eq!(moved.content, None);
    assert_eq!(moved.size_x, None);
    assert_eq!(moved.size_y, Some(21));
    assert_eq!(moved.transform, Some(vec![UNIT, 0, 0, UNIT, 0, 0]));

    let mut frame_cache = PatchCache::new();
    let f = compute_frame_patch(&mut frame_cache, &ids, (5, 5), m).unwrap();
    assert_eq!(f.size_x, Some(5));
    assert!(compute_frame_patch(&mut frame_cache, &ids, (5, 5), m).is_none());
}

fn expression_text_scene() -> PaxEngine {
    let text = RenderNode {
        instance_id: 2,
        size: None,
        transform: PropertyLiteral::new(Transform2D::identity()),
        kind: NodeKind::Text(TextNode {
            content: PropertyLiteral::new_expression(String::from("A"), 7),
            cache: PatchCache::new(),
        }),
        children: vec![],
    };
    PaxEngine::new(RenderNode::group(1, Transform2D::identity(), vec![text]), (10, 10))
}

#[test]
fn computed_expression_value_is_applied() {
    let mut engine = expression_text_scene();
    let msgs = engine
        .tick_with_expressions(&vec![(3, TypesCoproduct::Integer(1)), (7, TypesCoproduct::Text(String::from("C")))])
        .unwrap();
    match &msgs[1] {
        NativeMessage::TextUpdate(p) => assert_eq!(p.content.as_deref(), Some("C")),
        _ => panic!("expected an update"),
    }
}

#[test]
fn computed_value_of_wrong_type_ends_the_tick() {
    let mut engine = expression_text_scene();
    let r = engine.tick_with_expressions(&vec![(7, TypesCoproduct::Integer(1))]);
    assert_eq!(r.err(), Some(TickError::WrongVariant(2)));
}

#[test]
fn repeated_items_are_keyed_by_index() {
    let items = vec![
        RenderNode::text(5, String::from("a"), Some((Size::Pixels(10), Size::Pixels(10))), Transform2D::identity()),
        RenderNode::text(5, String::from("b"), Some((Size::Pixels(10), Size::Pixels(10))), Transform2D::identity()),
    ];
    let group = RenderNode::group(1, Transform2D::translate(7, 0), vec![RenderNode::repeat(4, items)]);
    let mut engine = PaxEngine::new(group, (100, 100));
    let msgs = engine.tick().unwrap();
    assert_eq!(msgs.len(), 4);
    match (&msgs[0], &msgs[1], &msgs[2], &msgs[3]) {
        (
            NativeMessage::TextCreate(c0),
            NativeMessage::TextUpdate(u0),
            NativeMessage::TextCreate(c1),
            NativeMessage::TextUpdate(u1),
        ) => {
            assert_eq!(c0.id_chain, vec![5, 0]);
            assert_eq!(c1.id_chain, vec![5, 1]);
            assert_eq!(u0.content.as_deref(), Some("a"));
            assert_eq!(u1.content.as_deref(), Some("b"));
            // The items sit directly in the group's frame of reference.
            assert_eq!(u1.transform, Some(vec![UNIT, 0, 0, UNIT, 7 * UNIT, 0]));
        },
        _ => panic!("unexpected messages"),
    }
    assert!(engine.instance_registry.is_mounted(5, &vec![0]));
    assert!(engine.instance_registry.is_mounted(5, &vec![1]));
    assert!(!engine.instance_registry.is_mounted(5, &vec![]));

    let removed = engine.remove_root_child(0);
    assert_eq!(removed.len(), 2);
    match &removed[1] {
        NativeMessage::TextDelete(ids) => assert_eq!(ids, &vec![5, 1]),
        _ => panic!("expected a deletion"),
    }
    assert!(!engine.instance_registry.is_mounted(5, &vec![0]));
    assert!(!engine.instance_registry.is_mounted(5, &vec![1]));
}

#[test]
fn transient_unmount_keeps_other_keys_and_deletes_in_pre_order() {
    let inner = RenderNode::text(4, String::from("in"), None, Transform2D::identity());
    let frame = RenderNode::frame(3, None, Transform2D::identity(), vec![inner]);
    let outside = RenderNode::text(9, String::from("out"), None, Transform2D::identity());
    let root = RenderNode::group(1, Transform2D::identity(), vec![frame, outside]);
    let mut engine = PaxEngine::new(root, (50, 50));
    engine.tick().unwrap();
    let mut messages = Vec::new();
    let mut subtree = engine.root.children.remove(0);
    subtree.unmount_recursive(&mut engine.instance_registry, &mut messages, &vec![], false);
    assert_eq!(messages.len(), 2);
    assert!(matches!(&messages[0], NativeMessage::FrameDelete(ids) if ids == &vec![3]));
    assert!(matches!(&messages[1], NativeMessage::TextDelete(ids) if ids == &vec![4]));
    assert!(!engine.instance_registry.is_mounted(3, &vec![]));
    assert!(!engine.instance_registry.is_mounted(4, &vec![]));
    assert!(engine.instance_registry.is_mounted(9, &vec![]));
    assert!(engine.instance_registry.is_mounted(1, &vec![]));
}

#[test]
fn permanent_unmount_forgets_every_path_of_descendants() {
    let mut registry = InstanceRegistry::new();
    let inner = RenderNode::text(4, String::from("in"), None, Transform2D::identity());
    let mut frame = RenderNode::frame(3, None, Transform2D::identity(), vec![inner]);
    registry.mark_mounted(4, &vec![]);
    registry.mark_mounted(4, &vec![7]);
    registry.mark_mounted(5, &vec![]);
    let mut messages = Vec::new();
    frame.unmount_recursive(&mut registry, &mut messages, &vec![], true);
    assert_eq!(messages.len(), 1);
    assert!(!registry.is_mounted(4, &vec![7]));
    assert!(registry.is_mounted(5, &vec![]));
    registry.mark_mounted(4, &vec![7]);
    assert!(registry.is_mounted(4, &vec![7]));
}

#[test]
fn text_root_change_sends_one_update() {
    let mut engine = PaxEngine::new(RenderNode::text(2, String::from("A"), None, Transform2D::identity()), (40, 30));
    assert_eq!(engine.tick().unwrap().len(), 2);
    engine.root.set_text(String::from("B"));
    let msgs = engine.tick().unwrap();
    assert_eq!(msgs.len(), 1);
    match &msgs[0] {
        NativeMessage::TextUpdate(p) => {
            assert_eq!(p.content.as_deref(), Some("B"));
            assert_eq!((p.size_x, p.size_y, p.transform.clone()), (None, None, None));
        },
        _ => panic!("expected an update"),
    }
}
