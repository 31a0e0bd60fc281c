use vstd::prelude::*;

use crate::coproduct::TypesCoproduct;
use crate::geometry::{spec_compose, spec_identity, Affine, Size};
use crate::message::{chain_of, copy_chains, copy_ids, AnyCreatePatch, FramePatch, NativeMessage, TextPatch};
use crate::property::{Interpolatable, PropertyLiteral};
use crate::registry::InstanceRegistry;
use crate::transform::{aligns_percent, spec_matrices, Transform2D};
use crate::zindex::{Layer, ZIndex};

verus! {

/// The last values sent to the host for one primitive.
pub struct PatchCache {
    pub content: Option<String>,
    pub transform: Option<Affine>,
    pub size_x: Option<i64>,
    pub size_y: Option<i64>,
}

pub open spec fn empty_cache() -> PatchCache {
    PatchCache { content: None, transform: None, size_x: None, size_y: None }
}

impl PatchCache {
    pub fn new() -> (r: PatchCache)
        ensures
            r.content is None,
            r.transform is None,
            r.size_x is None,
            r.size_y is None,
    {
        PatchCache { content: None, transform: None, size_x: None, size_y: None }
    }
}

/// Whether a length differs from the one last sent.
pub open spec fn changed_len(last: Option<i64>, now: i64) -> bool {
    last != Some(now)
}

/// Whether a text differs from the one last sent.
pub open spec fn changed_text(last: Option<String>, now: Seq<char>) -> bool {
    match last {
        Some(c) => c@ != now,
        None => true,
    }
}

pub open spec fn coefficients(m: Affine) -> Seq<i64> {
    seq![m.a, m.b, m.c, m.d, m.e, m.f]
}

/// A patch field: the new value when it changed, else nothing.
pub open spec fn field<T>(changed: bool, value: T) -> Option<T> {
    if changed {
        Some(value)
    } else {
        None
    }
}

/// Whether any field of a text primitive differs from what was last sent.
pub open spec fn text_changed(cache: PatchCache, content: Seq<char>, size: (i64, i64), transform: Affine) -> bool {
    changed_text(cache.content, content) || changed_len(cache.size_x, size.0) || changed_len(
        cache.size_y,
        size.1,
    ) || cache.transform != Some(transform)
}

/// `p` carries exactly the fields that changed, each with its new value.
pub open spec fn text_update_matches(
    p: TextPatch,
    id_chain: Seq<u32>,
    cache: PatchCache,
    content: Seq<char>,
    size: (i64, i64),
    transform: Affine,
) -> bool {
    &&& p.id_chain@ == id_chain
    &&& p.content is Some == changed_text(cache.content, content)
    &&& p.content is Some ==> p.content.unwrap()@ == content
    &&& p.size_x == field(changed_len(cache.size_x, size.0), size.0)
    &&& p.size_y == field(changed_len(cache.size_y, size.1), size.1)
    &&& p.transform is Some == (cache.transform != Some(transform))
    &&& p.transform is Some ==> p.transform.unwrap()@ == coefficients(transform)
}

/// Whether any field of a clipping frame differs from what was last sent.
pub open spec fn frame_changed(cache: PatchCache, size: (i64, i64), transform: Affine) -> bool {
    changed_len(cache.size_x, size.0) || changed_len(cache.size_y, size.1) || cache.transform != Some(
        transform,
    )
}

/// `p` carries exactly the frame fields that changed, each with its new value.
pub open spec fn frame_update_matches(
    p: FramePatch,
    id_chain: Seq<u32>,
    cache: PatchCache,
    size: (i64, i64),
    transform: Affine,
) -> bool {
    &&& p.id_chain@ == id_chain
    &&& p.size_x == field(changed_len(cache.size_x, size.0), size.0)
    &&& p.size_y == field(changed_len(cache.size_y, size.1), size.1)
    &&& p.transform is Some == (cache.transform != Some(transform))
    &&& p.transform is Some ==> p.transform.unwrap()@ == coefficients(transform)
}

fn len_field(last: Option<i64>, now: i64) -> (r: Option<i64>)
    ensures
        r == field(changed_len(last, now), now),
{
    match last {
        Some(l) => if l == now {
            None
        } else {
            Some(now)
        },
        None => Some(now),
    }
}

fn transform_field(last: Option<Affine>, now: Affine) -> (r: Option<Vec<i64>>)
    ensures
        r is Some == (last != Some(now)),
        r is Some ==> r.unwrap()@ == coefficients(now),
{
    match last {
        Some(l) => if l == now {
            None
        } else {
            Some(now.coefficients())
        },
        None => Some(now.coefficients()),
    }
}

/// The changes of a text primitive since its last patch, or `None` when nothing
/// changed; the cache then holds the values just computed.
pub fn compute_text_patch(
    cache: &mut PatchCache,
    id_chain: &Vec<u32>,
    content: &String,
    size: (i64, i64),
    transform: Affine,
) -> (r: Option<TextPatch>)
    ensures
        r is Some == text_changed(*old(cache), content@, size, transform),
        r is Some ==> text_update_matches(r.unwrap(), id_chain@, *old(cache), content@, size, transform),
        final(cache).content is Some,
        final(cache).content.unwrap()@ == content@,
        final(cache).size_x == Some(size.0),
        final(cache).size_y == Some(size.1),
        final(cache).transform == Some(transform),
{
    let content_field = match &cache.content {
        Some(c) => if *c == *content {
            None
        } else {
            Some(content.clone())
        },
        None => Some(content.clone()),
    };
    let size_x = len_field(cache.size_x, size.0);
    let size_y = len_field(cache.size_y, size.1);
    let transform_patch = transform_field(cache.transform, transform);
    cache.content = Some(content.clone());
    cache.size_x = Some(size.0);
    cache.size_y = Some(size.1);
    cache.transform = Some(transform);
    if content_field.is_none() && size_x.is_none() && size_y.is_none() && transform_patch.is_none() {
        None
    } else {
        Some(
            TextPatch {
                id_chain: copy_ids(id_chain),
                content: content_field,
                transform: transform_patch,
                size_x,
                size_y,
            },
        )
    }
}

/// The changes of a clipping frame since its last patch, or `None` when nothing
/// changed; the cache then holds the values just computed.
pub fn compute_frame_patch(
    cache: &mut PatchCache,
    id_chain: &Vec<u32>,
    size: (i64, i64),
    transform: Affine,
) -> (r: Option<FramePatch>)
    ensures
        r is Some == frame_changed(*old(cache), size, transform),
        r is Some ==> frame_update_matches(r.unwrap(), id_chain@, *old(cache), size, transform),
        final(cache).content == old(cache).content,
        final(cache).size_x == Some(size.0),
        final(cache).size_y == Some(size.1),
        final(cache).transform == Some(transform),
{
    let size_x = len_field(cache.size_x, size.0);
    let size_y = len_field(cache.size_y, size.1);
    let transform_patch = transform_field(cache.transform, transform);
    cache.size_x = Some(size.0);
    cache.size_y = Some(size.1);
    cache.transform = Some(transform);
    if size_x.is_none() && size_y.is_none() && transform_patch.is_none() {
        None
    } else {
        Some(FramePatch { id_chain: copy_ids(id_chain), size_x, size_y, transform: transform_patch })
    }
}

/// The size of a node in pixels: the parent bounds when it declares none, else
/// each axis resolved against the matching axis of the bounds.
pub open spec fn size_calc(size: Option<(Size, Size)>, bounds: (i64, i64)) -> (i64, i64) {
    match size {
        None => bounds,
        Some((w, h)) => (w.spec_pixels(bounds.0 as int), h.spec_pixels(bounds.1 as int)),
    }
}

pub fn get_size_calc(size: Option<(Size, Size)>, bounds: (i64, i64)) -> (r: (i64, i64))
    ensures
        r == size_calc(size, bounds),
{
    match size {
        None => bounds,
        Some((w, h)) => (w.get_pixels(bounds.0), h.get_pixels(bounds.1)),
    }
}

/// The declared size of a node, one cell per axis.
pub struct Size2D {
    pub width: PropertyLiteral<Size>,
    pub height: PropertyLiteral<Size>,
}

/// A text primitive: its content and what was last sent for it.
pub struct TextNode {
    pub content: PropertyLiteral<String>,
    pub cache: PatchCache,
}

/// A clipping frame and what was last sent for it.
pub struct FrameNode {
    pub cache: PatchCache,
}

pub enum NodeKind {
    Group,
    /// A repetition: transparent to traversal, its children stand in its place
    /// as siblings, child `i` at the repeat path extended by `i`.
    Repeat,
    Text(TextNode),
    Frame(FrameNode),
}

/// One node of the render tree.
pub struct RenderNode {
    pub instance_id: u32,
    pub size: Option<Size2D>,
    pub transform: PropertyLiteral<Transform2D>,
    pub kind: NodeKind,
    pub children: Vec<RenderNode>,
}

/// What ends a tick early.
#[derive(Clone, Copy, PartialEq, Eq, Structural, Debug)]
pub enum TickError {
    /// A transform of this instance has an align that is not a percentage.
    AlignNotPercent(u32),
    /// An expression of this instance computed a value of another type than its cell.
    WrongVariant(u32),
}

/// The value computed for expression `id` in `computed` from index `i` on: the
/// first entry with that id.
pub open spec fn lookup_from(computed: Seq<(usize, TypesCoproduct)>, id: usize, i: int) -> Option<
    TypesCoproduct,
>
    decreases computed.len() - i,
{
    if i < 0 || i >= computed.len() {
        None
    } else if computed[i].0 == id {
        Some(computed[i].1)
    } else {
        lookup_from(computed, id, i + 1)
    }
}

/// The value computed this tick for expression `id`, if any: the first entry wins.
pub open spec fn spec_lookup(computed: Seq<(usize, TypesCoproduct)>, id: usize) -> Option<TypesCoproduct> {
    lookup_from(computed, id, 0)
}

/// The value computed for a cell bound to `vtable_id`, if it is bound and one was computed.
pub open spec fn spec_lookup_cell(computed: Seq<(usize, TypesCoproduct)>, vtable_id: Option<usize>) -> Option<
    TypesCoproduct,
> {
    match vtable_id {
        None => None,
        Some(v) => spec_lookup(computed, v),
    }
}

/// The value computed for expression `id` this tick, if any; the first entry wins.
pub fn lookup_computed(computed: &Vec<(usize, TypesCoproduct)>, id: usize) -> (r: Option<&TypesCoproduct>)
    ensures
        r is None == spec_lookup(computed@, id) is None,
        r is Some ==> spec_lookup(computed@, id) == Some(*r.unwrap()),
{
    let mut i: usize = 0;
    while i < computed.len()
        invariant
            0 <= i <= computed@.len(),
            spec_lookup(computed@, id) == lookup_from(computed@, id, i as int),
        decreases computed@.len() - i,
    {
        if computed[i].0 == id {
            return Some(&computed[i].1);
        }
        i = i + 1;
    }
    None
}

/// The value computed this tick for the expression of a cell, if it has one.
fn lookup_cell(computed: &Vec<(usize, TypesCoproduct)>, vtable_id: Option<usize>) -> (r: Option<&TypesCoproduct>)
    ensures
        r is None == spec_lookup_cell(computed@, vtable_id) is None,
        r is Some ==> spec_lookup_cell(computed@, vtable_id) == Some(*r.unwrap()),
{
    match vtable_id {
        None => None,
        Some(v) => lookup_computed(computed, v),
    }
}

/// Advances a cell by one tick: a value computed for it wins, else its queue moves
/// on; a computed value of the wrong type is refused.
fn advance_cell<T: Interpolatable>(cell: &mut PropertyLiteral<T>, found: Option<Option<T>>, now: u64) -> (ok: bool)
    ensures
        ok == !(found is Some && found.unwrap() is None),
        found is Some && found.unwrap() is Some ==> final(cell).current() == found.unwrap().unwrap(),
        found is None ==> final(cell).current() == (if old(cell).queue().len() > 0 {
            crate::property::sample(old(cell).queue()[0], now)
        } else {
            old(cell).current()
        }),
{
    match found {
        None => {
            cell.tick_transition(now);
            true
        },
        Some(Some(v)) => {
            cell.set(v);
            true
        },
        Some(None) => false,
    }
}

/// `a` is `b` with more messages after it.
pub open spec fn extends<T>(a: Seq<T>, b: Seq<T>) -> bool {
    a.len() >= b.len() && a.subrange(0, b.len() as int) == b
}

/// The registry key of instance `id` at repeat path `path`.
pub open spec fn mount_key(id: u32, path: Seq<u32>) -> (u64, Seq<u32>) {
    (id as u64, path)
}

/// The node's declared size, as its cells hold it now.
pub open spec fn declared_size(n: RenderNode) -> Option<(Size, Size)> {
    match n.size {
        None => None,
        Some(s) => Some((s.width.current(), s.height.current())),
    }
}

/// The node's size in pixels inside `bounds`.
pub open spec fn node_size(n: RenderNode, bounds: (i64, i64)) -> (i64, i64) {
    size_calc(declared_size(n), bounds)
}

/// The value a cell takes this tick: a computed value of its type wins, else its
/// running transition is sampled, else it keeps its value.
pub open spec fn ticked_value<T: Interpolatable>(cell: PropertyLiteral<T>, found: Option<Option<T>>, now: u64) -> T {
    if found is Some && found.unwrap() is Some {
        found.unwrap().unwrap()
    } else if cell.queue().len() > 0 {
        crate::property::sample(cell.queue()[0], now)
    } else {
        cell.current()
    }
}

/// A computed value seen by a transform cell: none, a transform, or a wrong variant.
pub open spec fn transform_found(c: Option<TypesCoproduct>) -> Option<Option<Transform2D>> {
    match c {
        None => None,
        Some(TypesCoproduct::Transform(t)) => Some(Some(t)),
        Some(_) => Some(None),
    }
}

/// A computed value seen by a size cell: none, a size, or a wrong variant.
pub open spec fn size_found(c: Option<TypesCoproduct>) -> Option<Option<Size>> {
    match c {
        None => None,
        Some(TypesCoproduct::Size(v)) => Some(Some(v)),
        Some(_) => Some(None),
    }
}

/// A computed value seen by a text cell: none, a text, or a wrong variant.
pub open spec fn text_found(c: Option<TypesCoproduct>) -> Option<Option<String>> {
    match c {
        None => None,
        Some(TypesCoproduct::Text(v)) => Some(Some(v)),
        Some(_) => Some(None),
    }
}

pub open spec fn wrong_variant<T>(found: Option<Option<T>>) -> bool {
    found is Some && found.unwrap() is None
}

/// The cell values of `n` after this tick's property step.
pub open spec fn ticked_transform(n: RenderNode, computed: Seq<(usize, TypesCoproduct)>, now: u64) -> Transform2D {
    ticked_value(n.transform, transform_found(spec_lookup_cell(computed, n.transform.expression_id())), now)
}

pub open spec fn ticked_declared(n: RenderNode, computed: Seq<(usize, TypesCoproduct)>, now: u64) -> Option<(Size, Size)> {
    match n.size {
        None => None,
        Some(s) => Some(
            (
                ticked_value(s.width, size_found(spec_lookup_cell(computed, s.width.expression_id())), now),
                ticked_value(s.height, size_found(spec_lookup_cell(computed, s.height.expression_id())), now),
            ),
        ),
    }
}

pub open spec fn ticked_content(t: TextNode, computed: Seq<(usize, TypesCoproduct)>, now: u64) -> String {
    ticked_value(t.content, text_found(spec_lookup_cell(computed, t.content.expression_id())), now)
}

/// No cell of `n` gets a computed value of another type than its own.
pub open spec fn cells_ok(n: RenderNode, computed: Seq<(usize, TypesCoproduct)>) -> bool {
    &&& !wrong_variant(transform_found(spec_lookup_cell(computed, n.transform.expression_id())))
    &&& match n.size {
        None => true,
        Some(s) => !wrong_variant(size_found(spec_lookup_cell(computed, s.width.expression_id())))
            && !wrong_variant(size_found(spec_lookup_cell(computed, s.height.expression_id()))),
    }
    &&& match n.kind {
        NodeKind::Text(t) => !wrong_variant(
            text_found(spec_lookup_cell(computed, t.content.expression_id())),
        ),
        _ => true,
    }
}

/// `b` is `a` with only the values of its cells changed.
pub open spec fn same_but_cells(a: RenderNode, b: RenderNode) -> bool {
    &&& a.instance_id == b.instance_id
    &&& a.children == b.children
    &&& (a.size is Some) == (b.size is Some)
    &&& match (a.kind, b.kind) {
        (NodeKind::Text(x), NodeKind::Text(y)) => x.cache == y.cache,
        (NodeKind::Frame(x), NodeKind::Frame(y)) => x == y,
        (NodeKind::Group, NodeKind::Group) => true,
        (NodeKind::Repeat, NodeKind::Repeat) => true,
        _ => false,
    }
}

/// Node `n` ticks without error at `now`: no cell of it gets a computed value of
/// another type, and its transform, once ticked, aligns in percent.
pub open spec fn node_ok(n: RenderNode, computed: Seq<(usize, TypesCoproduct)>, now: u64) -> bool {
    cells_ok(n, computed) && aligns_percent(ticked_transform(n, computed, now))
}

/// Every node of the subtree of `n` ticks without error.
pub open spec fn tree_ok(n: RenderNode, computed: Seq<(usize, TypesCoproduct)>, now: u64) -> bool
    decreases n, n.children@.len() + 1,
{
    node_ok(n, computed, now) && children_ok(n, computed, now, n.children@.len() as int)
}

/// Every node of the subtrees of the first `i` children of `n` ticks without error.
pub open spec fn children_ok(n: RenderNode, computed: Seq<(usize, TypesCoproduct)>, now: u64, i: int) -> bool
    decreases n, i,
{
    if i <= 0 || i > n.children@.len() {
        true
    } else {
        children_ok(n, computed, now, i - 1) && tree_ok(n.children@[i - 1], computed, now)
    }
}

proof fn lemma_children_ok_prefix(n: RenderNode, computed: Seq<(usize, TypesCoproduct)>, now: u64, i: int, j: int)
    requires
        0 <= i <= j <= n.children@.len(),
        children_ok(n, computed, now, j),
    ensures
        children_ok(n, computed, now, i),
    decreases j - i,
{
    if i < j {
        lemma_children_ok_prefix(n, computed, now, i, j - 1);
    }
}

/// The repeat path of child `i` of `n`, which sits at `path`.
pub open spec fn child_path(n: RenderNode, path: Seq<u32>, i: int) -> Seq<u32> {
    if n.kind is Repeat {
        path.push(i as u32)
    } else {
        path
    }
}

/// The registry keys of the subtree of `n`, which sits at `path`.
pub open spec fn subtree_keys(n: RenderNode, path: Seq<u32>) -> Set<(u64, Seq<u32>)>
    decreases n, n.children@.len() + 1,
{
    set![mount_key(n.instance_id, path)].union(keys_before(n, path, n.children@.len() as int))
}

/// The registry keys of the subtrees of the first `i` children of `n`.
pub open spec fn keys_before(n: RenderNode, path: Seq<u32>, i: int) -> Set<(u64, Seq<u32>)>
    decreases n, i,
{
    if i <= 0 || i > n.children@.len() {
        Set::empty()
    } else {
        keys_before(n, path, i - 1).union(
            subtree_keys(n.children@[i - 1], child_path(n, path, i - 1)),
        )
    }
}

/// The instance ids of the subtree of `n`.
pub open spec fn subtree_ids(n: RenderNode) -> Set<u64>
    decreases n, n.children@.len() + 1,
{
    set![n.instance_id as u64].union(ids_before(n, n.children@.len() as int))
}

/// The instance ids of the subtrees of the first `i` children of `n`.
pub open spec fn ids_before(n: RenderNode, i: int) -> Set<u64>
    decreases n, i,
{
    if i <= 0 || i > n.children@.len() {
        Set::empty()
    } else {
        ids_before(n, i - 1).union(subtree_ids(n.children@[i - 1]))
    }
}

/// The keys of `mounted` whose instance id is not in `ids`.
pub open spec fn without_ids(mounted: Set<(u64, Seq<u32>)>, ids: Set<u64>) -> Set<(u64, Seq<u32>)> {
    mounted.filter(|k: (u64, Seq<u32>)| !ids.contains(k.0))
}

/// One deletion: whether it is of a text (else of a frame), and its id chain.
pub type Deletion = (bool, Seq<u32>);

/// Unmounting the subtree of `n` at `path`, in pre-order, from the mounted keys
/// `m`: the deletions sent, for the text and frame nodes that were mounted when
/// visited, and the mounted keys left.
pub open spec fn unmount_trace(n: RenderNode, path: Seq<u32>, m: Set<(u64, Seq<u32>)>) -> (
    Seq<Deletion>,
    Set<(u64, Seq<u32>)>,
)
    decreases n, n.children@.len() + 1,
{
    let key = mount_key(n.instance_id, path);
    let chain = seq![n.instance_id] + path;
    let own: Seq<Deletion> = if m.contains(key) {
        match n.kind {
            NodeKind::Text(_) => seq![(true, chain)],
            NodeKind::Frame(_) => seq![(false, chain)],
            _ => Seq::empty(),
        }
    } else {
        Seq::empty()
    };
    let rest = trace_before(n, path, n.children@.len() as int, m.remove(key));
    (own + rest.0, rest.1)
}

/// Unmounting the subtrees of the first `i` children of `n`, one after the other.
pub open spec fn trace_before(n: RenderNode, path: Seq<u32>, i: int, m: Set<(u64, Seq<u32>)>) -> (
    Seq<Deletion>,
    Set<(u64, Seq<u32>)>,
)
    decreases n, i,
{
    if i <= 0 || i > n.children@.len() {
        (Seq::empty(), m)
    } else {
        let prev = trace_before(n, path, i - 1, m);
        let c = unmount_trace(n.children@[i - 1], child_path(n, path, i - 1), prev.1);
        (prev.0 + c.0, c.1)
    }
}

/// `msgs` are the deletions `ds`, in order.
pub open spec fn deletes_match(msgs: Seq<NativeMessage>, ds: Seq<Deletion>) -> bool {
    &&& msgs.len() == ds.len()
    &&& forall|i: int|
        0 <= i < ds.len() ==> if ds[i].0 {
            (#[trigger] msgs[i]) is TextDelete && msgs[i]->TextDelete_0@ == ds[i].1
        } else {
            msgs[i] is FrameDelete && msgs[i]->FrameDelete_0@ == ds[i].1
        }
}

/// Unmounting removes exactly the keys of the subtree.
pub proof fn lemma_trace_keys(n: RenderNode, path: Seq<u32>, m: Set<(u64, Seq<u32>)>)
    ensures
        unmount_trace(n, path, m).1 == m.difference(subtree_keys(n, path)),
    decreases n, n.children@.len() + 1,
{
    let key = mount_key(n.instance_id, path);
    lemma_trace_before_keys(n, path, n.children@.len() as int, m.remove(key));
    assert(unmount_trace(n, path, m).1 =~= m.difference(subtree_keys(n, path)));
}

pub proof fn lemma_trace_before_keys(n: RenderNode, path: Seq<u32>, i: int, m: Set<(u64, Seq<u32>)>)
    requires
        0 <= i <= n.children@.len(),
    ensures
        trace_before(n, path, i, m).1 == m.difference(keys_before(n, path, i)),
    decreases n, i,
{
    if i > 0 {
        lemma_trace_before_keys(n, path, i - 1, m);
        let prev = trace_before(n, path, i - 1, m);
        lemma_trace_keys(n.children@[i - 1], child_path(n, path, i - 1), prev.1);
        assert(trace_before(n, path, i, m).1 =~= m.difference(keys_before(n, path, i)));
    } else {
        assert(trace_before(n, path, i, m).1 =~= m.difference(keys_before(n, path, i)));
    }
}

proof fn lemma_ids_before_congruent(a: RenderNode, b: RenderNode, i: int)
    requires
        a.children@.len() == b.children@.len(),
        0 <= i <= a.children@.len(),
        forall|j: int| 0 <= j < i ==> subtree_ids(#[trigger] a.children@[j]) == subtree_ids(b.children@[j]),
    ensures
        ids_before(a, i) == ids_before(b, i),
    decreases i,
{
    if i > 0 {
        lemma_ids_before_congruent(a, b, i - 1);
    }
}

proof fn lemma_deletes_append(
    before: Seq<NativeMessage>,
    after: Seq<NativeMessage>,
    base: int,
    ds1: Seq<Deletion>,
    ds2: Seq<Deletion>,
)
    requires
        0 <= base <= before.len(),
        extends(after, before),
        deletes_match(before.subrange(base, before.len() as int), ds1),
        deletes_match(after.subrange(before.len() as int, after.len() as int), ds2),
    ensures
        deletes_match(after.subrange(base, after.len() as int), ds1 + ds2),
{
    let all = after.subrange(base, after.len() as int);
    let ds = ds1 + ds2;
    assert forall|i: int| 0 <= i < ds.len() implies if ds[i].0 {
        (#[trigger] all[i]) is TextDelete && all[i]->TextDelete_0@ == ds[i].1
    } else {
        all[i] is FrameDelete && all[i]->FrameDelete_0@ == ds[i].1
    } by {
        if i < ds1.len() {
            assert(all[i] == after[base + i]);
            assert(after.subrange(0, before.len() as int)[base + i] == after[base + i]);
            assert(before.subrange(base, before.len() as int)[i] == before[base + i]);
        } else {
            let j = i - ds1.len();
            assert(all[i] == after[base + i]);
            assert(after.subrange(before.len() as int, after.len() as int)[j] == after[before.len() + j]);
        }
    }
}

/// One message the host is owed: a creation inside given clips, or an update
/// holding exactly the fields that differ from a cache.
pub enum Sent {
    TextCreate(Seq<u32>, Seq<Seq<u32>>),
    TextUpdate(Seq<u32>, PatchCache, Seq<char>, (i64, i64), Affine),
    FrameCreate(Seq<u32>, Seq<Seq<u32>>),
    FrameUpdate(Seq<u32>, PatchCache, (i64, i64), Affine),
}

/// The id chains of `a`.
pub open spec fn chains_view(a: Seq<Vec<u32>>) -> Seq<Seq<u32>> {
    a.map_values(|v: Vec<u32>| v@)
}

/// Message `m` is the owed message `s`.
pub open spec fn sent_as(m: NativeMessage, s: Sent) -> bool {
    match s {
        Sent::TextCreate(chain, clips) => {
            &&& m is TextCreate
            &&& m->TextCreate_0.id_chain@ == chain
            &&& chains_view(m->TextCreate_0.clipping_ids@) == clips
            &&& m->TextCreate_0.scroller_ids@.len() == 0
        },
        Sent::TextUpdate(chain, cache, content, size, matrix) => m is TextUpdate && text_update_matches(
            m->TextUpdate_0,
            chain,
            cache,
            content,
            size,
            matrix,
        ),
        Sent::FrameCreate(chain, clips) => {
            &&& m is FrameCreate
            &&& m->FrameCreate_0.id_chain@ == chain
            &&& chains_view(m->FrameCreate_0.clipping_ids@) == clips
            &&& m->FrameCreate_0.scroller_ids@.len() == 0
        },
        Sent::FrameUpdate(chain, cache, size, matrix) => m is FrameUpdate && frame_update_matches(
            m->FrameUpdate_0,
            chain,
            cache,
            size,
            matrix,
        ),
    }
}

/// `msgs` are the owed messages `ss`, in order.
pub open spec fn sent_match(msgs: Seq<NativeMessage>, ss: Seq<Sent>) -> bool {
    msgs.len() == ss.len() && forall|i: int| 0 <= i < ss.len() ==> sent_as(#[trigger] msgs[i], ss[i])
}

/// The messages node `n` owes of its own, with content `content`, size `size` and
/// full matrix `matrix`, inside `clips` at `path`: its creation if its key is not in
/// `mounted`, then, if a field differs from its cache, the update of those fields.
pub open spec fn own_sent(
    n: RenderNode,
    content: Seq<char>,
    mounted: Set<(u64, Seq<u32>)>,
    size: (i64, i64),
    matrix: Affine,
    clips: Seq<Seq<u32>>,
    path: Seq<u32>,
) -> Seq<Sent> {
    let chain = seq![n.instance_id] + path;
    let first = !mounted.contains(mount_key(n.instance_id, path));
    match n.kind {
        NodeKind::Text(t) => (if first {
            seq![Sent::TextCreate(chain, clips)]
        } else {
            Seq::empty()
        }) + (if text_changed(t.cache, content, size, matrix) {
            seq![Sent::TextUpdate(chain, t.cache, content, size, matrix)]
        } else {
            Seq::empty()
        }),
        NodeKind::Frame(f) => (if first {
            seq![Sent::FrameCreate(chain, clips)]
        } else {
            Seq::empty()
        }) + (if frame_changed(f.cache, size, matrix) {
            seq![Sent::FrameUpdate(chain, f.cache, size, matrix)]
        } else {
            Seq::empty()
        }),
        _ => Seq::empty(),
    }
}

pub open spec fn content_of(n: RenderNode) -> Seq<char> {
    match n.kind {
        NodeKind::Text(t) => t.content.current()@,
        _ => Seq::empty(),
    }
}

pub open spec fn ticked_text(n: RenderNode, computed: Seq<(usize, TypesCoproduct)>, now: u64) -> Seq<char> {
    match n.kind {
        NodeKind::Text(t) => ticked_content(t, computed, now)@,
        _ => Seq::empty(),
    }
}

pub open spec fn ticked_size(n: RenderNode, computed: Seq<(usize, TypesCoproduct)>, now: u64, bounds: (i64, i64)) -> (i64, i64) {
    size_calc(ticked_declared(n, computed, now), bounds)
}

/// The node's full matrix this tick: the parent's, then the align offset, then the base.
pub open spec fn ticked_matrix(
    n: RenderNode,
    computed: Seq<(usize, TypesCoproduct)>,
    now: u64,
    bounds: (i64, i64),
    parent: Affine,
) -> Affine {
    let m = spec_matrices(ticked_transform(n, computed, now), ticked_size(n, computed, now, bounds), bounds);
    spec_compose(spec_compose(parent, m.1), m.0)
}

/// The bounds the children of `n` are laid out in; a repetition passes its own on.
pub open spec fn inner_bounds(n: RenderNode, computed: Seq<(usize, TypesCoproduct)>, now: u64, bounds: (i64, i64)) -> (i64, i64) {
    if n.kind is Repeat {
        bounds
    } else {
        ticked_size(n, computed, now, bounds)
    }
}

/// The matrix the children of `n` are placed by; a repetition passes its own on.
pub open spec fn inner_parent(
    n: RenderNode,
    computed: Seq<(usize, TypesCoproduct)>,
    now: u64,
    bounds: (i64, i64),
    parent: Affine,
) -> Affine {
    if n.kind is Repeat {
        parent
    } else {
        ticked_matrix(n, computed, now, bounds, parent)
    }
}

/// The clips around the children of `n`: a frame adds its own.
pub open spec fn inner_clips(n: RenderNode, clips: Seq<Seq<u32>>, path: Seq<u32>) -> Seq<Seq<u32>> {
    if n.kind is Frame {
        clips.push(seq![n.instance_id] + path)
    } else {
        clips
    }
}

/// One tick of the subtree of `n`, in pre-order, from the mounted keys `mounted`:
/// the messages owed, and the mounted keys after it.
pub open spec fn tick_trace(
    n: RenderNode,
    mounted: Set<(u64, Seq<u32>)>,
    computed: Seq<(usize, TypesCoproduct)>,
    now: u64,
    bounds: (i64, i64),
    parent: Affine,
    clips: Seq<Seq<u32>>,
    path: Seq<u32>,
) -> (Seq<Sent>, Set<(u64, Seq<u32>)>)
    decreases n, n.children@.len() + 1,
{
    let own = own_sent(
        n,
        ticked_text(n, computed, now),
        mounted,
        ticked_size(n, computed, now, bounds),
        ticked_matrix(n, computed, now, bounds, parent),
        clips,
        path,
    );
    let rest = tick_before(
        n,
        computed,
        now,
        inner_bounds(n, computed, now, bounds),
        inner_parent(n, computed, now, bounds, parent),
        inner_clips(n, clips, path),
        path,
        n.children@.len() as int,
        mounted.insert(mount_key(n.instance_id, path)),
    );
    (own + rest.0, rest.1)
}

/// One tick of the subtrees of the first `i` children of `n`, one after the other.
pub open spec fn tick_before(
    n: RenderNode,
    computed: Seq<(usize, TypesCoproduct)>,
    now: u64,
    bounds: (i64, i64),
    parent: Affine,
    clips: Seq<Seq<u32>>,
    path: Seq<u32>,
    i: int,
    mounted: Set<(u64, Seq<u32>)>,
) -> (Seq<Sent>, Set<(u64, Seq<u32>)>)
    decreases n, i,
{
    if i <= 0 || i > n.children@.len() {
        (Seq::empty(), mounted)
    } else {
        let prev = tick_before(n, computed, now, bounds, parent, clips, path, i - 1, mounted);
        let c = tick_trace(
            n.children@[i - 1],
            prev.1,
            computed,
            now,
            bounds,
            parent,
            clips,
            child_path(n, path, i - 1),
        );
        (prev.0 + c.0, c.1)
    }
}

proof fn lemma_sent_append(
    before: Seq<NativeMessage>,
    after: Seq<NativeMessage>,
    base: int,
    ss1: Seq<Sent>,
    ss2: Seq<Sent>,
)
    requires
        0 <= base <= before.len(),
        extends(after, before),
        sent_match(before.subrange(base, before.len() as int), ss1),
        sent_match(after.subrange(before.len() as int, after.len() as int), ss2),
    ensures
        sent_match(after.subrange(base, after.len() as int), ss1 + ss2),
{
    let all = after.subrange(base, after.len() as int);
    let ss = ss1 + ss2;
    assert forall|i: int| 0 <= i < ss.len() implies sent_as(#[trigger] all[i], ss[i]) by {
        if i < ss1.len() {
            assert(all[i] == after[base + i]);
            assert(after.subrange(0, before.len() as int)[base + i] == after[base + i]);
            assert(before.subrange(base, before.len() as int)[i] == before[base + i]);
        } else {
            let j = i - ss1.len();
            assert(all[i] == after[base + i]);
            assert(after.subrange(before.len() as int, after.len() as int)[j] == after[before.len() + j]);
        }
    }
}

/// A mounted text node whose size and matrix are as last sent, and whose content
/// changed, owes exactly one message: an update that holds the new content and no
/// other field.
pub proof fn law_text_change_single_update(
    n: RenderNode,
    content: Seq<char>,
    mounted: Set<(u64, Seq<u32>)>,
    size: (i64, i64),
    matrix: Affine,
    clips: Seq<Seq<u32>>,
    path: Seq<u32>,
    msgs: Seq<NativeMessage>,
)
    requires
        n.kind is Text,
        mounted.contains(mount_key(n.instance_id, path)),
        n.kind->Text_0.cache.size_x == Some(size.0),
        n.kind->Text_0.cache.size_y == Some(size.1),
        n.kind->Text_0.cache.transform == Some(matrix),
        changed_text(n.kind->Text_0.cache.content, content),
        sent_match(msgs, own_sent(n, content, mounted, size, matrix, clips, path)),
    ensures
        msgs.len() == 1,
        msgs[0] is TextUpdate,
        ({
            let p = msgs[0]->TextUpdate_0;
            &&& p.id_chain@ == seq![n.instance_id] + path
            &&& p.content is Some
            &&& p.content.unwrap()@ == content
            &&& p.size_x is None
            &&& p.size_y is None
            &&& p.transform is None
        }),
{
    let ss = own_sent(n, content, mounted, size, matrix, clips, path);
    assert(ss.len() == 1);
    assert(sent_as(msgs[0], ss[0]));
}

impl RenderNode {
    pub fn group(instance_id: u32, transform: Transform2D, children: Vec<RenderNode>) -> (r: RenderNode)
        ensures
            r.instance_id == instance_id,
            r.size is None,
            r.transform.current() == transform,
            r.kind is Group,
            r.children == children,
    {
        RenderNode {
            instance_id,
            size: None,
            transform: PropertyLiteral::new(transform),
            kind: NodeKind::Group,
            children,
        }
    }

    /// A repetition whose children are its items, each usually an instance of one
    /// template, sharing its instance id.
    pub fn repeat(instance_id: u32, items: Vec<RenderNode>) -> (r: RenderNode)
        ensures
            r.instance_id == instance_id,
            r.size is None,
            r.transform.current() == crate::transform::empty_transform(),
            r.kind is Repeat,
            r.children == items,
    {
        RenderNode {
            instance_id,
            size: None,
            transform: PropertyLiteral::new(Transform2D::identity()),
            kind: NodeKind::Repeat,
            children: items,
        }
    }

    pub fn text(instance_id: u32, content: String, size: Option<(Size, Size)>, transform: Transform2D) -> (r: RenderNode)
        ensures
            r.instance_id == instance_id,
            r.transform.current() == transform,
            r.kind is Text,
            r.kind->Text_0.content.current() == content,
            r.kind->Text_0.content.queue().len() == 0,
            r.kind->Text_0.cache == empty_cache(),
            declared_size(r) == size,
            r.children@.len() == 0,
    {
        let size = match size {
            None => None,
            Some((w, h)) => Some(Size2D { width: PropertyLiteral::new(w), height: PropertyLiteral::new(h) }),
        };
        RenderNode {
            instance_id,
            size,
            transform: PropertyLiteral::new(transform),
            kind: NodeKind::Text(TextNode { content: PropertyLiteral::new(content), cache: PatchCache::new() }),
            children: Vec::new(),
        }
    }

    pub fn frame(instance_id: u32, size: Option<(Size, Size)>, transform: Transform2D, children: Vec<RenderNode>) -> (r: RenderNode)
        ensures
            r.instance_id == instance_id,
            r.transform.current() == transform,
            r.kind is Frame,
            r.kind->Frame_0.cache == empty_cache(),
            declared_size(r) == size,
            r.children == children,
    {
        let size = match size {
            None => None,
            Some((w, h)) => Some(Size2D { width: PropertyLiteral::new(w), height: PropertyLiteral::new(h) }),
        };
        RenderNode {
            instance_id,
            size,
            transform: PropertyLiteral::new(transform),
            kind: NodeKind::Frame(FrameNode { cache: PatchCache::new() }),
            children,
        }
    }

    /// Whether traversal passes through this node to its children, which then
    /// stand in its place.
    pub fn should_flatten(&self) -> (r: bool)
        ensures
            r == self.kind is Repeat,
    {
        match &self.kind {
            NodeKind::Repeat => true,
            _ => false,
        }
    }

    /// This node's size in pixels inside `bounds`.
    pub fn get_size_calc(&self, bounds: (i64, i64)) -> (r: (i64, i64))
        ensures
            r == node_size(*self, bounds),
    {
        let declared = match &self.size {
            Some(s) => Some((*s.width.get(), *s.height.get())),
            None => None,
        };
        get_size_calc(declared, bounds)
    }

    /// Replaces the content of a text node; other nodes are left as they are.
    pub fn set_text(&mut self, content: String)
        ensures
            !(old(self).kind is Text) ==> *final(self) == *old(self),
            old(self).kind is Text ==> ({
                &&& final(self).instance_id == old(self).instance_id
                &&& final(self).size == old(self).size
                &&& final(self).transform == old(self).transform
                &&& final(self).children == old(self).children
                &&& final(self).kind is Text
                &&& final(self).kind->Text_0.content.current() == content
                &&& final(self).kind->Text_0.content.queue() == old(self).kind->Text_0.content.queue()
                &&& final(self).kind->Text_0.cache == old(self).kind->Text_0.cache
            }),
    {
        match &mut self.kind {
            NodeKind::Text(t) => t.content.set(content),
            _ => {},
        }
    }

    /// First step of a tick for this node: each cell takes the value computed for
    /// its expression, or else advances its transition to `now`. A computed value
    /// of another type than its cell's is refused.
    pub fn compute_properties(&mut self, computed: &Vec<(usize, TypesCoproduct)>, now: u64) -> (ok: bool)
        ensures
            ok == cells_ok(*old(self), computed@),
            final(self).instance_id == old(self).instance_id,
            ok ==> same_but_cells(*old(self), *final(self)),
            ok ==> final(self).transform.current() == ticked_transform(*old(self), computed@, now),
            ok ==> declared_size(*final(self)) == ticked_declared(*old(self), computed@, now),
            ok && old(self).kind is Text ==> final(self).kind->Text_0.content.current() == ticked_content(
                old(self).kind->Text_0,
                computed@,
                now,
            ),
    {
        let found = match lookup_cell(computed, self.transform.get_vtable_id()) {
            None => None,
            Some(c) => Some(c.as_transform()),
        };
        if !advance_cell(&mut self.transform, found, now) {
            return false;
        }
        match &mut self.size {
            Some(s) => {
                let found = match lookup_cell(computed, s.width.get_vtable_id()) {
                    None => None,
                    Some(c) => Some(c.as_size()),
                };
                if !advance_cell(&mut s.width, found, now) {
                    return false;
                }
                let found = match lookup_cell(computed, s.height.get_vtable_id()) {
                    None => None,
                    Some(c) => Some(c.as_size()),
                };
                if !advance_cell(&mut s.height, found, now) {
                    return false;
                }
            },
            None => {},
        }
        match &mut self.kind {
            NodeKind::Text(t) => {
                let found = match lookup_cell(computed, t.content.get_vtable_id()) {
                    None => None,
                    Some(c) => Some(c.as_text()),
                };
                if !advance_cell(&mut t.content, found, now) {
                    return false;
                }
            },
            _ => {},
        }
        true
    }

    /// Sends what this node owes of its own after its properties are computed:
    /// it is mounted on its first visit, with the creation of its primitive, then
    /// the update of its changed fields, if any.
    fn send_own_patches(
        &mut self,
        registry: &mut InstanceRegistry,
        zindex: &mut ZIndex,
        messages: &mut Vec<NativeMessage>,
        size: (i64, i64),
        matrix: Affine,
        clips: &Vec<Vec<u32>>,
        repeat_path: &Vec<u32>,
    )
        ensures
            final(self).instance_id == old(self).instance_id,
            final(self).children == old(self).children,
            final(self).size == old(self).size,
            final(self).transform == old(self).transform,
            (final(self).kind is Frame) == (old(self).kind is Frame),
            (final(self).kind is Repeat) == (old(self).kind is Repeat),
            final(registry).mounted() == old(registry).mounted().insert(
                mount_key(old(self).instance_id, repeat_path@),
            ),
            extends(final(messages)@, old(messages)@),
            sent_match(
                final(messages)@.subrange(old(messages)@.len() as int, final(messages)@.len() as int),
                own_sent(
                    *old(self),
                    content_of(*old(self)),
                    old(registry).mounted(),
                    size,
                    matrix,
                    chains_view(clips@),
                    repeat_path@,
                ),
            ),
    {
        let id = self.instance_id;
        let ghost m0 = registry.mounted();
        let ghost key = mount_key(id, repeat_path@);
        let ghost chain = seq![id] + repeat_path@;
        let ghost cv = chains_view(clips@);
        // Mount.
        let first = !registry.is_mounted(id as u64, repeat_path);
        if first {
            registry.mark_mounted(id as u64, repeat_path);
        }
        let layer = match &self.kind {
            NodeKind::Text(_) => Layer::Native,
            _ => Layer::DontCare,
        };
        zindex.update_z_index(layer);

        // Native patches.
        let id_chain = chain_of(id, repeat_path);
        let ghost before = messages@;
        match &mut self.kind {
            NodeKind::Text(t) => {
                if first {
                    let clipping_ids = copy_chains(clips);
                    proof {
                        assert(chains_view(clipping_ids@) =~= cv);
                    }
                    messages.push(
                        NativeMessage::TextCreate(
                            AnyCreatePatch {
                                id_chain: copy_ids(&id_chain),
                                clipping_ids,
                                scroller_ids: Vec::new(),
                                z_index: zindex.get_level(),
                            },
                        ),
                    );
                    proof {
                        assert(sent_as(messages@[before.len() as int], Sent::TextCreate(chain, cv)));
                    }
                }
                let patch = compute_text_patch(&mut t.cache, &id_chain, t.content.get(), size, matrix);
                match patch {
                    Some(p) => messages.push(NativeMessage::TextUpdate(p)),
                    None => {},
                }
            },
            NodeKind::Frame(f) => {
                if first {
                    let clipping_ids = copy_chains(clips);
                    proof {
                        assert(chains_view(clipping_ids@) =~= cv);
                    }
                    messages.push(
                        NativeMessage::FrameCreate(
                            AnyCreatePatch {
                                id_chain: copy_ids(&id_chain),
                                clipping_ids,
                                scroller_ids: Vec::new(),
                                z_index: zindex.get_level(),
                            },
                        ),
                    );
                    proof {
                        assert(sent_as(messages@[before.len() as int], Sent::FrameCreate(chain, cv)));
                    }
                }
                let patch = compute_frame_patch(&mut f.cache, &id_chain, size, matrix);
                match patch {
                    Some(p) => messages.push(NativeMessage::FrameUpdate(p)),
                    None => {},
                }
            },
            _ => {},
        }
        proof {
            if m0.contains(key) {
                assert(m0.insert(key) =~= m0);
            }
            assert(messages@.subrange(0, before.len() as int) =~= before);
            assert(messages@.subrange(0, old(messages)@.len() as int) =~= old(messages)@);
            let own = messages@.subrange(old(messages)@.len() as int, messages@.len() as int);
            let ss = own_sent(*old(self), content_of(*old(self)), m0, size, matrix, cv, repeat_path@);
            assert forall|k: int| 0 <= k < ss.len() implies sent_as(#[trigger] own[k], ss[k]) by {
                assert(own[k] == messages@[old(messages)@.len() + k]);
            }
        }
    }

    /// One tick of this subtree, in pre-order: the node's cells take the values
    /// computed for their expressions, or else advance their transitions to `now`,
    /// its size and matrices are computed, it is mounted on its first visit, its
    /// patches are appended to `messages`, then its children follow. It succeeds
    /// exactly when every node of the subtree ticks without error, and then sends
    /// exactly the messages of `tick_trace`.
    #[verifier::rlimit(100)]
    #[verifier::spinoff_prover]
    pub fn tick_subtree(
        &mut self,
        registry: &mut InstanceRegistry,
        zindex: &mut ZIndex,
        messages: &mut Vec<NativeMessage>,
        now: u64,
        bounds: (i64, i64),
        parent: Affine,
        clips: &Vec<Vec<u32>>,
        repeat_path: &Vec<u32>,
        computed: &Vec<(usize, TypesCoproduct)>,
    ) -> (r: Result<(), TickError>)
        ensures
            final(self).instance_id == old(self).instance_id,
            extends(final(messages)@, old(messages)@),
            (r is Ok) == tree_ok(*old(self), computed@, now),
            r is Ok ==> ({
                let t = tick_trace(
                    *old(self),
                    old(registry).mounted(),
                    computed@,
                    now,
                    bounds,
                    parent,
                    chains_view(clips@),
                    repeat_path@,
                );
                &&& final(registry).mounted() == t.1
                &&& sent_match(
                    final(messages)@.subrange(old(messages)@.len() as int, final(messages)@.len() as int),
                    t.0,
                )
            }),
        decreases *old(self),
    {
        proof {
            assert(messages@.subrange(0, messages@.len() as int) =~= messages@);
        }
        let id = self.instance_id;
        if !self.compute_properties(computed, now) {
            return Err(TickError::WrongVariant(id));
        }
        let size = self.get_size_calc(bounds);
        let t = self.transform.get();
        if !t.aligns_are_percent() {
            return Err(TickError::AlignNotPercent(id));
        }
        let (base, align) = t.compute_transform_matrix(size, bounds);
        let matrix = parent.then_after(&align).then_after(&base);
        let ghost props = *self;
        let ghost m0 = registry.mounted();
        let ghost base_len = messages@.len();
        let ghost cv = chains_view(clips@);
        let ghost own_ex = own_sent(
            *old(self),
            ticked_text(*old(self), computed@, now),
            m0,
            size,
            matrix,
            cv,
            repeat_path@,
        );
        proof {
            assert(size == ticked_size(*old(self), computed@, now, bounds));
            assert(matrix == ticked_matrix(*old(self), computed@, now, bounds, parent));
            assert(content_of(props) == ticked_text(*old(self), computed@, now));
            assert(own_sent(props, content_of(props), m0, size, matrix, cv, repeat_path@) == own_ex);
            assert(node_ok(*old(self), computed@, now));
        }
        self.send_own_patches(registry, zindex, messages, size, matrix, clips, repeat_path);
        let ghost m1 = registry.mounted();

        // Children, inside this node's bounds and, for a frame, its clip; the
        // children of a repetition stand in its place instead.
        let id_chain = chain_of(id, repeat_path);
        let mut child_clips = copy_chains(clips);
        let is_frame = match &self.kind {
            NodeKind::Frame(_) => true,
            _ => false,
        };
        if is_frame {
            child_clips.push(copy_ids(&id_chain));
        }
        proof {
            assert(chains_view(child_clips@) =~= inner_clips(*old(self), cv, repeat_path@));
        }
        let repeats = self.should_flatten();
        let (child_bounds, child_matrix) = if repeats {
            (bounds, parent)
        } else {
            (size, matrix)
        };
        proof {
            assert(own_ex + tick_before(
                *old(self),
                computed@,
                now,
                child_bounds,
                child_matrix,
                chains_view(child_clips@),
                repeat_path@,
                0,
                m1,
            ).0 =~= own_ex);
        }
        let mut i: usize = 0;
        while i < self.children.len()
            invariant
                0 <= i <= self.children@.len(),
                self.children@.len() == old(self).children@.len(),
                forall|j: int| i <= j < self.children@.len() ==> self.children@[j] == old(self).children@[j],
                self.instance_id == old(self).instance_id,
                repeats == old(self).kind is Repeat,
                child_bounds == inner_bounds(*old(self), computed@, now, bounds),
                child_matrix == inner_parent(*old(self), computed@, now, bounds, parent),
                chains_view(child_clips@) == inner_clips(*old(self), cv, repeat_path@),
                cv == chains_view(clips@),
                node_ok(*old(self), computed@, now),
                children_ok(*old(self), computed@, now, i as int),
                extends(messages@, old(messages)@),
                base_len == old(messages)@.len(),
                m0 == old(registry).mounted(),
                m1 == m0.insert(mount_key(old(self).instance_id, repeat_path@)),
                own_ex == own_sent(
                    *old(self),
                    ticked_text(*old(self), computed@, now),
                    m0,
                    ticked_size(*old(self), computed@, now, bounds),
                    ticked_matrix(*old(self), computed@, now, bounds, parent),
                    cv,
                    repeat_path@,
                ),
                registry.mounted() == tick_before(
                    *old(self),
                    computed@,
                    now,
                    child_bounds,
                    child_matrix,
                    chains_view(child_clips@),
                    repeat_path@,
                    i as int,
                    m1,
                ).1,
                sent_match(
                    messages@.subrange(base_len as int, messages@.len() as int),
                    own_ex + tick_before(
                        *old(self),
                        computed@,
                        now,
                        child_bounds,
                        child_matrix,
                        chains_view(child_clips@),
                        repeat_path@,
                        i as int,
                        m1,
                    ).0,
                ),
            decreases self.children@.len() - i,
        {
            let ghost before = messages@;
            let ghost prev = tick_before(
                *old(self),
                computed@,
                now,
                child_bounds,
                child_matrix,
                chains_view(child_clips@),
                repeat_path@,
                i as int,
                m1,
            );
            proof {
                assert(decreases_to!(*old(self) => old(self).children@[i as int]));
            }
            let mut cpath = copy_ids(repeat_path);
            if repeats {
                cpath.push(i as u32);
            }
            proof {
                assert(cpath@ == child_path(*old(self), repeat_path@, i as int));
            }
            let res = self.children[i].tick_subtree(
                registry,
                zindex,
                messages,
                now,
                child_bounds,
                child_matrix,
                &child_clips,
                &cpath,
                computed,
            );
            proof {
                assert(messages@.subrange(0, old(messages)@.len() as int) =~= before.subrange(
                    0,
                    old(messages)@.len() as int,
                ));
            }
            match res {
                Ok(()) => {},
                Err(e) => {
                    proof {
                        if children_ok(*old(self), computed@, now, old(self).children@.len() as int) {
                            lemma_children_ok_prefix(
                                *old(self),
                                computed@,
                                now,
                                i + 1,
                                old(self).children@.len() as int,
                            );
                        }
                    }
                    return Err(e);
                },
            }
            proof {
                let c = tick_trace(
                    old(self).children@[i as int],
                    prev.1,
                    computed@,
                    now,
                    child_bounds,
                    child_matrix,
                    chains_view(child_clips@),
                    cpath@,
                );
                lemma_sent_append(before, messages@, base_len as int, own_ex + prev.0, c.0);
                assert(own_ex + prev.0 + c.0 =~= own_ex + tick_before(
                    *old(self),
                    computed@,
                    now,
                    child_bounds,
                    child_matrix,
                    chains_view(child_clips@),
                    repeat_path@,
                    i + 1,
                    m1,
                ).0);
            }
            i = i + 1;
        }
        Ok(())
    }

    /// Unmounts this subtree: each mounted node, in pre-order, leaves the registry
    /// and sends the deletion of its primitive; `permanent` then forgets every
    /// instance id of the subtree, once all of it has been unmounted.
    pub fn unmount_recursive(
        &mut self,
        registry: &mut InstanceRegistry,
        messages: &mut Vec<NativeMessage>,
        repeat_path: &Vec<u32>,
        permanent: bool,
    )
        ensures
            final(self).instance_id == old(self).instance_id,
            !permanent ==> final(registry).mounted() == old(registry).mounted().difference(
                subtree_keys(*old(self), repeat_path@),
            ),
            permanent ==> final(registry).mounted() == without_ids(
                old(registry).mounted().difference(subtree_keys(*old(self), repeat_path@)),
                subtree_ids(*old(self)),
            ),
            extends(final(messages)@, old(messages)@),
            deletes_match(
                final(messages)@.subrange(old(messages)@.len() as int, final(messages)@.len() as int),
                unmount_trace(*old(self), repeat_path@, old(registry).mounted()).0,
            ),
    {
        self.unmount_subtree(registry, messages, repeat_path);
        proof {
            lemma_trace_keys(*old(self), repeat_path@, old(registry).mounted());
        }
        if permanent {
            self.deregister_subtree(registry);
        }
    }

    /// Marks each mounted node of this subtree unmounted, in pre-order, and sends
    /// the deletion of its primitive.
    pub fn unmount_subtree(
        &mut self,
        registry: &mut InstanceRegistry,
        messages: &mut Vec<NativeMessage>,
        repeat_path: &Vec<u32>,
    )
        ensures
            final(self).instance_id == old(self).instance_id,
            subtree_ids(*final(self)) == subtree_ids(*old(self)),
            final(registry).mounted() == unmount_trace(*old(self), repeat_path@, old(registry).mounted()).1,
            extends(final(messages)@, old(messages)@),
            deletes_match(
                final(messages)@.subrange(old(messages)@.len() as int, final(messages)@.len() as int),
                unmount_trace(*old(self), repeat_path@, old(registry).mounted()).0,
            ),
        decreases *old(self),
    {
        let id = self.instance_id;
        let ghost key = mount_key(id, repeat_path@);
        let ghost base = messages@.len() as int;
        let ghost m0 = registry.mounted();
        let ghost own: Seq<Deletion> = if m0.contains(key) {
            match self.kind {
                NodeKind::Text(_) => seq![(true, seq![id] + repeat_path@)],
                NodeKind::Frame(_) => seq![(false, seq![id] + repeat_path@)],
                _ => Seq::empty(),
            }
        } else {
            Seq::empty()
        };
        proof {
            assert(messages@.subrange(0, messages@.len() as int) =~= messages@);
        }
        if registry.is_mounted(id as u64, repeat_path) {
            registry.mark_unmounted(id as u64, repeat_path);
            match &mut self.kind {
                NodeKind::Text(t) => {
                    messages.push(NativeMessage::TextDelete(chain_of(id, repeat_path)));
                    t.cache = PatchCache::new();
                },
                NodeKind::Frame(f) => {
                    messages.push(NativeMessage::FrameDelete(chain_of(id, repeat_path)));
                    f.cache = PatchCache::new();
                },
                _ => {},
            }
        } else {
            proof {
                assert(m0.remove(key) =~= m0);
            }
        }
        proof {
            assert(messages@.subrange(0, old(messages)@.len() as int) =~= old(messages)@);
            assert(deletes_match(messages@.subrange(base, messages@.len() as int), own));
            assert(own + trace_before(*old(self), repeat_path@, 0, m0.remove(key)).0 =~= own);
            assert(ids_before(*self, 0) == ids_before(*old(self), 0));
        }
        let repeats = self.should_flatten();
        let mut i: usize = 0;
        while i < self.children.len()
            invariant
                0 <= i <= self.children@.len(),
                self.children@.len() == old(self).children@.len(),
                forall|j: int| i <= j < self.children@.len() ==> self.children@[j] == old(self).children@[j],
                forall|j: int|
                    0 <= j < i ==> subtree_ids(#[trigger] self.children@[j]) == subtree_ids(
                        old(self).children@[j],
                    ),
                self.instance_id == old(self).instance_id,
                repeats == old(self).kind is Repeat,
                base == old(messages)@.len(),
                m0 == old(registry).mounted(),
                key == mount_key(old(self).instance_id, repeat_path@),
                registry.mounted() == trace_before(*old(self), repeat_path@, i as int, m0.remove(key)).1,
                extends(messages@, old(messages)@),
                deletes_match(
                    messages@.subrange(base, messages@.len() as int),
                    own + trace_before(*old(self), repeat_path@, i as int, m0.remove(key)).0,
                ),
            decreases self.children@.len() - i,
        {
            let ghost before = messages@;
            let ghost prev = trace_before(*old(self), repeat_path@, i as int, m0.remove(key));
            proof {
                assert(decreases_to!(*old(self) => old(self).children@[i as int]));
            }
            let mut cpath = copy_ids(repeat_path);
            if repeats {
                cpath.push(i as u32);
            }
            proof {
                assert(cpath@ == child_path(*old(self), repeat_path@, i as int));
            }
            self.children[i].unmount_subtree(registry, messages, &cpath);
            proof {
                let c = unmount_trace(old(self).children@[i as int], cpath@, prev.1);
                lemma_deletes_append(before, messages@, base, own + prev.0, c.0);
                assert(own + prev.0 + c.0 =~= own + trace_before(*old(self), repeat_path@, i + 1, m0.remove(key)).0);
                assert(messages@.subrange(0, old(messages)@.len() as int) =~= before.subrange(0, old(messages)@.len() as int));
            }
            i = i + 1;
        }
        proof {
            lemma_ids_before_congruent(*self, *old(self), self.children@.len() as int);
            assert(subtree_ids(*self) =~= subtree_ids(*old(self)));
        }
    }

    /// Forgets every instance id of this subtree.
    pub fn deregister_subtree(&self, registry: &mut InstanceRegistry)
        ensures
            final(registry).mounted() == without_ids(old(registry).mounted(), subtree_ids(*self)),
        decreases *self,
    {
        registry.deregister(self.instance_id as u64);
        proof {
            assert(registry.mounted() =~= without_ids(
                old(registry).mounted(),
                set![self.instance_id as u64].union(ids_before(*self, 0)),
            ));
        }
        let mut i: usize = 0;
        while i < self.children.len()
            invariant
                0 <= i <= self.children@.len(),
                registry.mounted() == without_ids(
                    old(registry).mounted(),
                    set![self.instance_id as u64].union(ids_before(*self, i as int)),
                ),
            decreases self.children@.len() - i,
        {
            proof {
                assert(decreases_to!(*self => self.children@[i as int]));
            }
            self.children[i].deregister_subtree(registry);
            proof {
                assert(registry.mounted() =~= without_ids(
                    old(registry).mounted(),
                    set![self.instance_id as u64].union(ids_before(*self, i + 1)),
                ));
            }
            i = i + 1;
        }
    }
}

/// The engine: a render tree, the registry of mounted instances, and the tick count.
pub struct PaxEngine {
    pub root: RenderNode,
    pub instance_registry: InstanceRegistry,
    pub frames_elapsed: u64,
    pub viewport_size: (i64, i64),
}

impl PaxEngine {
    pub fn new(root: RenderNode, viewport_size: (i64, i64)) -> (r: PaxEngine)
        ensures
            r.root == root,
            r.instance_registry.mounted() == Set::<(u64, Seq<u32>)>::empty(),
            r.frames_elapsed == 0,
            r.viewport_size == viewport_size,
    {
        PaxEngine { root, instance_registry: InstanceRegistry::new(), frames_elapsed: 0, viewport_size }
    }

    /// The viewport size, used from the next tick on.
    pub fn set_viewport_size(&mut self, size: (i64, i64))
        ensures
            final(self).viewport_size == size,
            final(self).frames_elapsed == old(self).frames_elapsed,
            final(self).root == old(self).root,
    {
        self.viewport_size = size;
    }

    /// One tick: the tick count advances (stopping at `u64::MAX`), then the whole
    /// tree is computed and diffed, in pre-order, against the viewport, with
    /// `computed` holding this tick's value of each expression by id. The patches
    /// come back in traversal order.
    pub fn tick_with_expressions(&mut self, computed: &Vec<(usize, TypesCoproduct)>) -> (r: Result<Vec<NativeMessage>, TickError>)
        ensures
            final(self).frames_elapsed == if old(self).frames_elapsed < u64::MAX {
                (old(self).frames_elapsed + 1) as u64
            } else {
                old(self).frames_elapsed
            },
            final(self).root.instance_id == old(self).root.instance_id,
            (r is Ok) == tree_ok(old(self).root, computed@, final(self).frames_elapsed),
            r is Ok ==> ({
                let t = tick_trace(
                    old(self).root,
                    old(self).instance_registry.mounted(),
                    computed@,
                    final(self).frames_elapsed,
                    old(self).viewport_size,
                    spec_identity(),
                    Seq::empty(),
                    Seq::empty(),
                );
                &&& final(self).instance_registry.mounted() == t.1
                &&& sent_match(r.unwrap()@, t.0)
            }),
    {
        if self.frames_elapsed < u64::MAX {
            self.frames_elapsed = self.frames_elapsed + 1;
        }
        let mut messages: Vec<NativeMessage> = Vec::new();
        let mut zindex = ZIndex::new(None);
        let clips: Vec<Vec<u32>> = Vec::new();
        let no_repeat: Vec<u32> = Vec::new();
        let res = self.root.tick_subtree(
            &mut self.instance_registry,
            &mut zindex,
            &mut messages,
            self.frames_elapsed,
            self.viewport_size,
            Affine::identity(),
            &clips,
            &no_repeat,
            computed,
        );
        proof {
            assert(clips@ =~= Seq::<Vec<u32>>::empty());
            assert(chains_view(clips@) =~= Seq::<Seq<u32>>::empty());
            assert(no_repeat@ =~= Seq::<u32>::empty());
            assert(messages@.subrange(0, messages@.len() as int) =~= messages@);
        }
        match res {
            Ok(()) => Ok(messages),
            Err(e) => Err(e),
        }
    }

    /// One tick with no expression values computed.
    pub fn tick(&mut self) -> (r: Result<Vec<NativeMessage>, TickError>)
        ensures
            final(self).frames_elapsed == if old(self).frames_elapsed < u64::MAX {
                (old(self).frames_elapsed + 1) as u64
            } else {
                old(self).frames_elapsed
            },
            final(self).root.instance_id == old(self).root.instance_id,
            (r is Ok) == tree_ok(old(self).root, Seq::<(usize, TypesCoproduct)>::empty(), final(self).frames_elapsed),
            r is Ok ==> ({
                let t = tick_trace(
                    old(self).root,
                    old(self).instance_registry.mounted(),
                    Seq::<(usize, TypesCoproduct)>::empty(),
                    final(self).frames_elapsed,
                    old(self).viewport_size,
                    spec_identity(),
                    Seq::empty(),
                    Seq::empty(),
                );
                &&& final(self).instance_registry.mounted() == t.1
                &&& sent_match(r.unwrap()@, t.0)
            }),
    {
        let none: Vec<(usize, TypesCoproduct)> = Vec::new();
        proof {
            assert(none@ =~= Seq::<(usize, TypesCoproduct)>::empty());
        }
        self.tick_with_expressions(&none)
    }

    /// Removes child `index` of the root for good, unmounting and deregistering its
    /// whole subtree, and returns the deletions that causes.
    pub fn remove_root_child(&mut self, index: usize) -> (r: Vec<NativeMessage>)
        requires
            index < old(self).root.children@.len(),
        ensures
            final(self).root.children@ == old(self).root.children@.remove(index as int),
            ({
                let child = old(self).root.children@[index as int];
                let path = child_path(old(self).root, Seq::empty(), index as int);
                &&& final(self).instance_registry.mounted() == without_ids(
                    old(self).instance_registry.mounted().difference(subtree_keys(child, path)),
                    subtree_ids(child),
                )
                &&& deletes_match(
                    r@,
                    unmount_trace(child, path, old(self).instance_registry.mounted()).0,
                )
            }),
    {
        let repeats = self.root.should_flatten();
        let mut child = self.root.children.remove(index);
        let mut messages: Vec<NativeMessage> = Vec::new();
        let mut path: Vec<u32> = Vec::new();
        if repeats {
            path.push(index as u32);
        }
        proof {
            assert(path@ == child_path(old(self).root, Seq::empty(), index as int));
        }
        child.unmount_recursive(&mut self.instance_registry, &mut messages, &path, true);
        proof {
            assert(messages@.subrange(0, messages@.len() as int) =~= messages@);
        }
        messages
    }
}

} // verus!
