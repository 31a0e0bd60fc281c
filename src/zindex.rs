use vstd::prelude::*;

verus! {

/// The kind of surface a primitive draws on.
#[derive(Clone, Copy, PartialEq, Eq, Structural, Debug)]
pub enum Layer {
    Native,
    Scroller,
    Canvas,
    DontCare,
}

/// The playhead of a timeline.
pub struct Timeline {
    pub playhead_position: usize,
    pub frame_count: usize,
    pub is_playing: bool,
}

/// The layer and z-level reached so far in a traversal of the render tree.
pub struct ZIndex {
    z_index: u32,
    layer: Layer,
    #[allow(dead_code)]
    parent_scroller: Option<Vec<u32>>,
}

/// The level after a primitive of layer `next` follows one of layer `current`:
/// entering a canvas or scroller layer from another layer opens a new level.
pub open spec fn next_level(level: u32, current: Layer, next: Layer) -> u32 {
    if next != Layer::DontCare && current != next && (next == Layer::Canvas || next
        == Layer::Scroller) && level < u32::MAX {
        (level + 1) as u32
    } else {
        level
    }
}

pub open spec fn next_layer(current: Layer, next: Layer) -> Layer {
    if next == Layer::DontCare {
        current
    } else {
        next
    }
}

pub open spec fn digit_char(d: int) -> char {
    if d == 0 {
        '0'
    } else if d == 1 {
        '1'
    } else if d == 2 {
        '2'
    } else if d == 3 {
        '3'
    } else if d == 4 {
        '4'
    } else if d == 5 {
        '5'
    } else if d == 6 {
        '6'
    } else if d == 7 {
        '7'
    } else if d == 8 {
        '8'
    } else {
        '9'
    }
}

/// The decimal digits of `n`.
pub open spec fn decimal(n: nat) -> Seq<char>
    decreases n,
{
    if n < 10 {
        seq![digit_char(n as int)]
    } else {
        decimal(n / 10).push(digit_char((n % 10) as int))
    }
}

/// The numbers of `ids`, in decimal, separated by `", "`.
pub open spec fn joined(ids: Seq<u32>) -> Seq<char>
    decreases ids.len(),
{
    if ids.len() == 0 {
        seq![]
    } else if ids.len() == 1 {
        decimal(ids[0] as nat)
    } else {
        joined(ids.drop_last()) + seq![',', ' '] + decimal(ids.last() as nat)
    }
}

/// `"[a, b]_z"` for a scroller id chain, `"z"` without one.
pub open spec fn location_id(scroller_id: Option<Seq<u32>>, z_index: u32) -> Seq<char> {
    match scroller_id {
        Some(ids) => seq!['['] + joined(ids) + seq![']', '_'] + decimal(z_index as nat),
        None => decimal(z_index as nat),
    }
}

fn push_digit(s: &mut String, d: u32)
    requires
        d < 10,
    ensures
        final(s)@ == old(s)@.push(digit_char(d as int)),
{
    let lit = if d == 0 {
        "0"
    } else if d == 1 {
        "1"
    } else if d == 2 {
        "2"
    } else if d == 3 {
        "3"
    } else if d == 4 {
        "4"
    } else if d == 5 {
        "5"
    } else if d == 6 {
        "6"
    } else if d == 7 {
        "7"
    } else if d == 8 {
        "8"
    } else {
        "9"
    };
    proof {
        reveal_strlit("0");
        reveal_strlit("1");
        reveal_strlit("2");
        reveal_strlit("3");
        reveal_strlit("4");
        reveal_strlit("5");
        reveal_strlit("6");
        reveal_strlit("7");
        reveal_strlit("8");
        reveal_strlit("9");
        assert(lit@ =~= seq![digit_char(d as int)]);
    }
    s.append(lit);
}

/// Appends the decimal digits of `n`.
fn push_decimal(s: &mut String, n: u32)
    ensures
        final(s)@ == old(s)@ + decimal(n as nat),
    decreases n,
{
    if n < 10 {
        push_digit(s, n);
        proof {
            assert(final(s)@ =~= old(s)@ + decimal(n as nat));
        }
    } else {
        push_decimal(s, n / 10);
        push_digit(s, n % 10);
        proof {
            assert(final(s)@ =~= old(s)@ + decimal(n as nat));
        }
    }
}

impl ZIndex {
    pub closed spec fn level(&self) -> u32 {
        self.z_index
    }

    pub closed spec fn layer(&self) -> Layer {
        self.layer
    }

    pub fn new(scroller_id: Option<Vec<u32>>) -> (r: ZIndex)
        ensures
            r.level() == 0,
            r.layer() == Layer::Canvas,
    {
        ZIndex { z_index: 0, layer: Layer::Canvas, parent_scroller: scroller_id }
    }

    pub fn get_level(&mut self) -> (r: u32)
        ensures
            r == old(self).level(),
            *final(self) == *old(self),
    {
        self.z_index
    }

    pub fn get_current_layer(&mut self) -> (r: Layer)
        ensures
            r == old(self).layer(),
            *final(self) == *old(self),
    {
        self.layer
    }

    /// Records a primitive of `layer`; a change into a canvas or scroller layer
    /// raises the level (which stops at `u32::MAX`), and `DontCare` changes nothing.
    pub fn update_z_index(&mut self, layer: Layer)
        ensures
            final(self).level() == next_level(old(self).level(), old(self).layer(), layer),
            final(self).layer() == next_layer(old(self).layer(), layer),
    {
        match layer {
            Layer::DontCare => {},
            _ => {
                if self.layer != layer {
                    if (layer == Layer::Canvas || layer == Layer::Scroller) && self.z_index
                        < u32::MAX {
                        self.z_index = self.z_index + 1;
                    }
                }
                self.layer = layer;
            },
        }
    }

    /// The native location id of a level, qualified by its scroller when there is one.
    pub fn generate_location_id(scroller_id: Option<Vec<u32>>, z_index: u32) -> (r: String)
        ensures
            r@ == location_id(
                match scroller_id {
                    Some(v) => Some(v@),
                    None => None,
                },
                z_index,
            ),
    {
        let mut s = String::new();
        match &scroller_id {
            Some(ids) => {
                s.append("[");
                proof {
                    reveal_strlit("[");
                }
                let mut i: usize = 0;
                while i < ids.len()
                    invariant
                        0 <= i <= ids@.len(),
                        s@ == seq!['['] + joined(ids@.subrange(0, i as int)),
                    decreases ids@.len() - i,
                {
                    if i > 0 {
                        s.append(", ");
                        proof {
                            reveal_strlit(", ");
                        }
                    }
                    push_decimal(&mut s, ids[i]);
                    proof {
                        let p = ids@.subrange(0, i as int + 1);
                        assert(p.drop_last() =~= ids@.subrange(0, i as int));
                        assert(p.last() == ids@[i as int]);
                        if i == 0 {
                            assert(joined(ids@.subrange(0, 0)) =~= seq![]);
                        }
                        assert(s@ =~= seq!['['] + joined(p));
                    }
                    i = i + 1;
                }
                s.append("]_");
                push_decimal(&mut s, z_index);
                proof {
                    reveal_strlit("]_");
                    assert(ids@.subrange(0, ids@.len() as int) =~= ids@);
                    assert(s@ =~= location_id(Some(ids@), z_index));
                }
            },
            None => {
                push_decimal(&mut s, z_index);
                proof {
                    assert(s@ =~= location_id(None, z_index));
                }
            },
        }
        s
    }
}

} // verus!
