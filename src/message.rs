use vstd::prelude::*;

verus! {

/// Creation of a natively rendered primitive.
pub struct AnyCreatePatch {
    pub id_chain: Vec<u32>,
    pub clipping_ids: Vec<Vec<u32>>,
    pub scroller_ids: Vec<Vec<u32>>,
    pub z_index: u32,
}

/// The fields of a text primitive that changed since its last patch; lengths in
/// pixels, transform coefficients in the units of `Affine`.
pub struct TextPatch {
    pub id_chain: Vec<u32>,
    pub content: Option<String>,
    pub transform: Option<Vec<i64>>,
    pub size_x: Option<i64>,
    pub size_y: Option<i64>,
}

/// The fields of a clipping frame that changed since its last patch.
pub struct FramePatch {
    pub id_chain: Vec<u32>,
    pub size_x: Option<i64>,
    pub size_y: Option<i64>,
    pub transform: Option<Vec<i64>>,
}

/// The fields of a scroll container that changed since its last patch.
pub struct ScrollerPatch {
    pub id_chain: Vec<u32>,
    pub size_x: Option<i64>,
    pub size_y: Option<i64>,
    pub size_inner_pane_x: Option<i64>,
    pub size_inner_pane_y: Option<i64>,
    pub transform: Option<Vec<i64>>,
    pub scroll_x: Option<bool>,
    pub scroll_y: Option<bool>,
    pub subtree_depth: u32,
}

/// A request to load an image for a primitive.
pub struct ImagePatch {
    pub id_chain: Vec<u32>,
    pub path: Option<String>,
}

/// A request for more native layers.
pub struct LayerAddPatch {
    pub num_layers_to_add: usize,
}

/// One message of the outbound patch stream.
pub enum NativeMessage {
    TextCreate(AnyCreatePatch),
    TextUpdate(TextPatch),
    TextDelete(Vec<u32>),
    FrameCreate(AnyCreatePatch),
    FrameUpdate(FramePatch),
    FrameDelete(Vec<u32>),
    ScrollerCreate(AnyCreatePatch),
    ScrollerUpdate(ScrollerPatch),
    ScrollerDelete(Vec<u32>),
    ImageLoad(ImagePatch),
    LayerAdd(LayerAddPatch),
}

/// The messages of one tick.
pub struct MessageQueue {
    pub messages: Vec<NativeMessage>,
}

/// A copy of an id chain.
pub fn copy_ids(a: &Vec<u32>) -> (r: Vec<u32>)
    ensures
        r@ == a@,
{
    let mut r: Vec<u32> = Vec::new();
    let mut i: usize = 0;
    while i < a.len()
        invariant
            0 <= i <= a@.len(),
            r@ == a@.subrange(0, i as int),
        decreases a@.len() - i,
    {
        r.push(a[i]);
        i = i + 1;
        proof {
            assert(r@ =~= a@.subrange(0, i as int));
        }
    }
    proof {
        assert(a@.subrange(0, a@.len() as int) =~= a@);
    }
    r
}

/// The id chain of instance `id` at repeat path `path`.
pub fn chain_of(id: u32, path: &Vec<u32>) -> (r: Vec<u32>)
    ensures
        r@ == seq![id] + path@,
{
    let mut r: Vec<u32> = Vec::new();
    r.push(id);
    let mut i: usize = 0;
    while i < path.len()
        invariant
            0 <= i <= path@.len(),
            r@ == seq![id] + path@.subrange(0, i as int),
        decreases path@.len() - i,
    {
        r.push(path[i]);
        i = i + 1;
        proof {
            assert(r@ =~= seq![id] + path@.subrange(0, i as int));
        }
    }
    proof {
        assert(path@.subrange(0, path@.len() as int) =~= path@);
    }
    r
}

/// Two lists of id chains hold the same chains.
pub open spec fn same_chains(a: Seq<Vec<u32>>, b: Seq<Vec<u32>>) -> bool {
    a.len() == b.len() && forall|j: int| 0 <= j < a.len() ==> (#[trigger] a[j])@ == b[j]@
}

/// A copy of a list of id chains.
pub fn copy_chains(a: &Vec<Vec<u32>>) -> (r: Vec<Vec<u32>>)
    ensures
        same_chains(r@, a@),
{
    let mut r: Vec<Vec<u32>> = Vec::new();
    let mut i: usize = 0;
    while i < a.len()
        invariant
            0 <= i <= a@.len(),
            r@.len() == i,
            forall|j: int| 0 <= j < i ==> (#[trigger] r@[j])@ == a@[j]@,
        decreases a@.len() - i,
    {
        r.push(copy_ids(&a[i]));
        i = i + 1;
    }
    r
}

} // verus!
