use vstd::prelude::*;
use std::collections::HashMap;

verus! {

/// Standard cursor shapes.
#[derive(Debug, Clone, Copy, PartialEq, Eq, Hash, Structural)]
pub enum CursorShape {
    /// Default arrow cursor
    Default,
    /// Text input cursor (I-beam)
    Text,
    /// Hand/pointer cursor for clickable elements
    Pointer,
    /// Wait/busy cursor
    Wait,
    /// Crosshair cursor
    Crosshair,
    /// Move cursor (four arrows)
    Move,
    /// Resize cursors
    ResizeN,
    ResizeS,
    ResizeE,
    ResizeW,
    ResizeNE,
    ResizeNW,
    ResizeSE,
    ResizeSW,
    /// Not allowed cursor
    NotAllowed,
}

/// The glyph of each shape in the X11 cursor font (X11/cursorfont.h).
pub open spec fn glyph_of(shape: CursorShape) -> u16 {
    match shape {
        CursorShape::Default => 68,
        CursorShape::Text => 152,
        CursorShape::Pointer => 60,
        CursorShape::Wait => 150,
        CursorShape::Crosshair => 34,
        CursorShape::Move => 52,
        CursorShape::ResizeN => 138,
        CursorShape::ResizeS => 16,
        CursorShape::ResizeE => 96,
        CursorShape::ResizeW => 70,
        CursorShape::ResizeNE => 136,
        CursorShape::ResizeNW => 134,
        CursorShape::ResizeSE => 14,
        CursorShape::ResizeSW => 12,
        CursorShape::NotAllowed => 0,
    }
}

impl CursorShape {
    /// The X11 cursor font glyph index.
    pub fn glyph(self) -> (g: u16)
        ensures
            g == glyph_of(self),
    {
        match self {
            CursorShape::Default => 68,  // XC_left_ptr
            CursorShape::Text => 152,  // XC_xterm
            CursorShape::Pointer => 60,  // XC_hand2
            CursorShape::Wait => 150,  // XC_watch
            CursorShape::Crosshair => 34,  // XC_crosshair
            CursorShape::Move => 52,  // XC_fleur
            CursorShape::ResizeN => 138,  // XC_top_side
            CursorShape::ResizeS => 16,  // XC_bottom_side
            CursorShape::ResizeE => 96,  // XC_right_side
            CursorShape::ResizeW => 70,  // XC_left_side
            CursorShape::ResizeNE => 136,  // XC_top_right_corner
            CursorShape::ResizeNW => 134,  // XC_top_left_corner
            CursorShape::ResizeSE => 14,  // XC_bottom_right_corner
            CursorShape::ResizeSW => 12,  // XC_bottom_left_corner
            CursorShape::NotAllowed => 0,  // XC_X_cursor
        }
    }

    /// The mask glyph, which the cursor font stores right after the shape.
    pub fn mask_glyph(self) -> (g: u16)
        ensures
            g == glyph_of(self) + 1,
    {
        self.glyph() + 1
    }
}

/// Every cursor shape, in declaration order.
pub open spec fn all_shapes() -> Seq<CursorShape> {
    seq![
        CursorShape::Default,
        CursorShape::Text,
        CursorShape::Pointer,
        CursorShape::Wait,
        CursorShape::Crosshair,
        CursorShape::Move,
        CursorShape::ResizeN,
        CursorShape::ResizeS,
        CursorShape::ResizeE,
        CursorShape::ResizeW,
        CursorShape::ResizeNE,
        CursorShape::ResizeNW,
        CursorShape::ResizeSE,
        CursorShape::ResizeSW,
        CursorShape::NotAllowed,
    ]
}

fn shapes() -> (v: Vec<CursorShape>)
    ensures
        v@ == all_shapes(),
{
    let v = vec![
        CursorShape::Default,
        CursorShape::Text,
        CursorShape::Pointer,
        CursorShape::Wait,
        CursorShape::Crosshair,
        CursorShape::Move,
        CursorShape::ResizeN,
        CursorShape::ResizeS,
        CursorShape::ResizeE,
        CursorShape::ResizeW,
        CursorShape::ResizeNE,
        CursorShape::ResizeNW,
        CursorShape::ResizeSE,
        CursorShape::ResizeSW,
        CursorShape::NotAllowed,
    ];
    assert(v@ =~= all_shapes());
    v
}

/// The cursor cached for a shape, looked up by the shape's glyph.
pub open spec fn lookup(m: Map<u16, u32>, shape: CursorShape) -> Option<u32> {
    if m.contains_key(glyph_of(shape)) {
        Some(m[glyph_of(shape)])
    } else {
        None
    }
}

/// The cursors cached for `shapes`, in their order.
pub open spec fn cached_cursors(m: Map<u16, u32>, shapes: Seq<CursorShape>) -> Seq<u32>
    decreases shapes.len(),
{
    if shapes.len() == 0 {
        Seq::empty()
    } else {
        let init = cached_cursors(m, shapes.drop_last());
        match lookup(m, shapes.last()) {
            Some(c) => init.push(c),
            None => init,
        }
    }
}

/// The cursors created so far, by shape. A shape is found again by its
/// glyph, which no other shape shares (`law_glyphs_distinct`).
pub struct CursorCache {
    cursors: HashMap<u16, u32>,
}

impl View for CursorCache {
    type V = Map<u16, u32>;

    closed spec fn view(&self) -> Map<u16, u32> {
        self.cursors@
    }
}

impl CursorCache {
    /// No cursor created yet.
    pub fn new() -> (c: Self)
        ensures
            c@ == Map::<u16, u32>::empty(),
    {
        CursorCache { cursors: HashMap::new() }
    }

    /// The cursor created earlier for `shape`, if any.
    pub fn cached(&self, shape: CursorShape) -> (r: Option<u32>)
        ensures
            r == lookup(self@, shape),
    {
        broadcast use vstd::std_specs::hash::group_hash_axioms;
        let g = shape.glyph();
        match self.cursors.get(&g) {
            Some(c) => Some(*c),
            None => None,
        }
    }

    /// Remember the cursor created for `shape`.
    pub fn remember(&mut self, shape: CursorShape, cursor: u32)
        ensures
            final(self)@ == old(self)@.insert(glyph_of(shape), cursor),
    {
        broadcast use vstd::std_specs::hash::group_hash_axioms;
        let g = shape.glyph();
        self.cursors.insert(g, cursor);
    }

    /// Every cursor created so far, in the order of the shapes.
    pub fn cursors(&self) -> (v: Vec<u32>)
        ensures
            v@ == cached_cursors(self@, all_shapes()),
    {
        let all = shapes();
        let mut out: Vec<u32> = Vec::new();
        let mut i: usize = 0;
        assert(all@.subrange(0, 0) =~= Seq::<CursorShape>::empty());
        while i < all.len()
            invariant
                i <= all.len(),
                all@ == all_shapes(),
                out@ == cached_cursors(self@, all@.subrange(0, i as int)),
            decreases all.len() - i,
        {
            assert(all@.subrange(0, i + 1).drop_last() =~= all@.subrange(0, i as int));
            match self.cached(all[i]) {
                Some(c) => {
                    out.push(c);
                },
                None => {},
            }
            i += 1;
        }
        assert(all@.subrange(0, all.len() as int) =~= all@);
        out
    }
}

/// Distinct shapes have distinct glyphs, so the cache never answers one
/// shape with another's cursor.
pub proof fn law_glyphs_distinct(a: CursorShape, b: CursorShape)
    requires
        a != b,
    ensures
        glyph_of(a) != glyph_of(b),
{
}

/// After the cursor of a shape is remembered, that shape is answered with
/// it, and every other shape as before.
pub proof fn law_cache_returns_remembered(
    m: Map<u16, u32>,
    shape: CursorShape,
    cursor: u32,
    other: CursorShape,
)
    ensures
        lookup(m.insert(glyph_of(shape), cursor), shape) == Some(cursor),
        other != shape ==> lookup(m.insert(glyph_of(shape), cursor), other) == lookup(m, other),
{
    if other != shape {
        law_glyphs_distinct(shape, other);
    }
}

} // verus!
