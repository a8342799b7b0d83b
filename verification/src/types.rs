//! Value types for the compositor model: sizes, rectangles, resize edges,
//! and the two independent bit-flag sets describing a view's kind and state.

use vstd::prelude::*;

verus! {

/// A width/height pair in pixels.
#[derive(Clone, Copy, Debug, PartialEq, Eq, Structural)]
pub struct Size {
    pub w: u32,
    pub h: u32,
}

/// A position in the compositor's coordinate space.
#[derive(Clone, Copy, Debug, PartialEq, Eq, Structural)]
pub struct Point {
    pub x: i32,
    pub y: i32,
}

/// A rectangle: an origin and a size.
#[derive(Clone, Copy, Debug, PartialEq, Eq, Structural)]
pub struct Geometry {
    pub origin: Point,
    pub size: Size,
}

impl Geometry {
    /// The rectangle with origin (0, 0) and size (0, 0).
    pub open spec fn spec_zero() -> Geometry {
        Geometry { origin: Point { x: 0, y: 0 }, size: Size { w: 0, h: 0 } }
    }

    /// Returns the rectangle with origin (0, 0) and size (0, 0).
    pub fn zero() -> (r: Geometry)
        ensures
            r == Geometry::spec_zero(),
    {
        Geometry { origin: Point { x: 0, y: 0 }, size: Size { w: 0, h: 0 } }
    }
}

/// Which edge(s) of a view are being dragged during an interactive resize.
///
/// Purely advisory metadata handed to geometry-set operations; this layer
/// never acts on it.
pub const RESIZE_EDGE_NONE: u32 = 0x0;
pub const RESIZE_EDGE_TOP: u32 = 0x1;
pub const RESIZE_EDGE_BOTTOM: u32 = 0x2;
pub const RESIZE_EDGE_LEFT: u32 = 0x4;
pub const RESIZE_EDGE_RIGHT: u32 = 0x8;
pub const RESIZE_EDGE_TOP_LEFT: u32 = RESIZE_EDGE_TOP | RESIZE_EDGE_LEFT;
pub const RESIZE_EDGE_TOP_RIGHT: u32 = RESIZE_EDGE_TOP | RESIZE_EDGE_RIGHT;
pub const RESIZE_EDGE_BOTTOM_LEFT: u32 = RESIZE_EDGE_BOTTOM | RESIZE_EDGE_LEFT;
pub const RESIZE_EDGE_BOTTOM_RIGHT: u32 = RESIZE_EDGE_BOTTOM | RESIZE_EDGE_RIGHT;
pub const RESIZE_EDGE_ALL_BITS: u32 = RESIZE_EDGE_TOP | RESIZE_EDGE_BOTTOM | RESIZE_EDGE_LEFT
    | RESIZE_EDGE_RIGHT;

/// A set of resize-edge flags.
#[derive(Clone, Copy, Debug, PartialEq, Eq, Structural)]
pub struct ResizeEdge {
    pub bits: u32,
}

impl ResizeEdge {
    /// The empty edge set (no edge is being dragged).
    pub open spec fn spec_empty() -> ResizeEdge {
        ResizeEdge { bits: 0 }
    }

    /// Returns the empty edge set.
    pub fn empty() -> (r: ResizeEdge)
        ensures
            r == ResizeEdge::spec_empty(),
    {
        ResizeEdge { bits: 0 }
    }

    /// The edge set with the given bit pattern; bits outside the defined
    /// edge range are masked out.
    pub open spec fn spec_from_bits(bits: u32) -> ResizeEdge {
        ResizeEdge { bits: bits & RESIZE_EDGE_ALL_BITS }
    }

    /// Builds an edge set from a raw bit pattern, masking out unknown bits.
    pub fn from_bits(bits: u32) -> (r: ResizeEdge)
        ensures
            r == ResizeEdge::spec_from_bits(bits),
    {
        ResizeEdge { bits: bits & RESIZE_EDGE_ALL_BITS }
    }

    /// Whether every edge of `flag` is in this set.
    pub open spec fn spec_contains(self, flag: ResizeEdge) -> bool {
        self.bits & flag.bits == flag.bits
    }

    /// Tests whether every edge of `flag` is in this set.
    pub fn contains(self, flag: ResizeEdge) -> (r: bool)
        ensures
            r == self.spec_contains(flag),
    {
        self.bits & flag.bits == flag.bits
    }
}

/// Window-type flags: orthogonal categories a view can belong to.
pub const VIEW_BIT_OVERRIDE_REDIRECT: u32 = 0x1;
pub const VIEW_BIT_UNMANAGED: u32 = 0x2;
pub const VIEW_BIT_SPLASH: u32 = 0x4;
pub const VIEW_BIT_MODAL: u32 = 0x8;
pub const VIEW_BIT_POPUP: u32 = 0x10;
pub const VIEW_TYPE_ALL_BITS: u32 = VIEW_BIT_OVERRIDE_REDIRECT | VIEW_BIT_UNMANAGED
    | VIEW_BIT_SPLASH | VIEW_BIT_MODAL | VIEW_BIT_POPUP;

/// A set of window-type flags.
///
/// Values produced by this module's operations only ever hold bits inside
/// `VIEW_TYPE_ALL_BITS` (see `wf`): unknown bits are masked out, never kept.
#[derive(Clone, Copy, Debug, PartialEq, Eq, Structural)]
pub struct ViewType {
    pub bits: u32,
}

impl ViewType {
    /// All bits of the set lie within the defined flag range.
    pub open spec fn wf(self) -> bool {
        self.bits & VIEW_TYPE_ALL_BITS == self.bits
    }

    /// The set with no flags.
    pub open spec fn spec_empty() -> ViewType {
        ViewType { bits: 0 }
    }

    /// Returns the set with no flags.
    pub fn empty() -> (r: ViewType)
        ensures
            r == ViewType::spec_empty(),
    {
        ViewType { bits: 0 }
    }

    /// The set with the given bit pattern, unknown bits masked out.
    pub open spec fn spec_from_bits(bits: u32) -> ViewType {
        ViewType { bits: bits & VIEW_TYPE_ALL_BITS }
    }

    /// Builds a set from a raw bit pattern, masking out unknown bits.
    pub fn from_bits(bits: u32) -> (r: ViewType)
        ensures
            r == ViewType::spec_from_bits(bits),
    {
        ViewType { bits: bits & VIEW_TYPE_ALL_BITS }
    }

    /// The set with the flags of `flag` added, unknown bits masked out.
    pub open spec fn spec_insert(self, flag: ViewType) -> ViewType {
        ViewType { bits: (self.bits | flag.bits) & VIEW_TYPE_ALL_BITS }
    }

    /// Adds the flags of `flag` to the set (idempotent).
    pub fn insert(&mut self, flag: ViewType)
        ensures
            *final(self) == old(self).spec_insert(flag),
    {
        self.bits = (self.bits | flag.bits) & VIEW_TYPE_ALL_BITS;
    }

    /// The set with the flags of `flag` cleared.
    pub open spec fn spec_remove(self, flag: ViewType) -> ViewType {
        ViewType { bits: (self.bits & !flag.bits) & VIEW_TYPE_ALL_BITS }
    }

    /// Clears the flags of `flag` from the set (idempotent).
    pub fn remove(&mut self, flag: ViewType)
        ensures
            *final(self) == old(self).spec_remove(flag),
    {
        self.bits = (self.bits & !flag.bits) & VIEW_TYPE_ALL_BITS;
    }

    /// Whether every flag of `flag` is in the set.
    pub open spec fn spec_contains(self, flag: ViewType) -> bool {
        self.bits & flag.bits == flag.bits
    }

    /// Tests whether every flag of `flag` is in the set.
    pub fn contains(self, flag: ViewType) -> (r: bool)
        ensures
            r == self.spec_contains(flag),
    {
        self.bits & flag.bits == flag.bits
    }
}

/// Every window-type set produced by the flag operations stays within the
/// defined flag range.
pub proof fn lemma_view_type_ops_wf(s: ViewType, f: ViewType, bits: u32)
    ensures
        ViewType::spec_empty().wf(),
        ViewType::spec_from_bits(bits).wf(),
        s.spec_insert(f).wf(),
        s.spec_remove(f).wf(),
{
    assert(0u32 & VIEW_TYPE_ALL_BITS == 0u32) by (bit_vector);
    assert((bits & VIEW_TYPE_ALL_BITS) & VIEW_TYPE_ALL_BITS == bits & VIEW_TYPE_ALL_BITS)
        by (bit_vector);
    let b = s.bits;
    let c = f.bits;
    assert(((b | c) & VIEW_TYPE_ALL_BITS) & VIEW_TYPE_ALL_BITS == (b | c) & VIEW_TYPE_ALL_BITS)
        by (bit_vector);
    assert(((b & !c) & VIEW_TYPE_ALL_BITS) & VIEW_TYPE_ALL_BITS == (b & !c) & VIEW_TYPE_ALL_BITS)
        by (bit_vector);
}

/// Inserting a window-type flag twice gives the same set as inserting it once.
pub proof fn lemma_view_type_insert_idempotent(s: ViewType, f: ViewType)
    ensures
        s.spec_insert(f).spec_insert(f) == s.spec_insert(f),
{
    let b = s.bits;
    let c = f.bits;
    assert((((b | c) & VIEW_TYPE_ALL_BITS) | c) & VIEW_TYPE_ALL_BITS == (b | c)
        & VIEW_TYPE_ALL_BITS) by (bit_vector);
}

/// Inserting a window-type flag and then removing it yields the original set
/// minus that flag, whether or not the flag was set before.
pub proof fn lemma_view_type_insert_then_remove(s: ViewType, f: ViewType)
    ensures
        s.spec_insert(f).spec_remove(f) == s.spec_remove(f),
{
    let b = s.bits;
    let c = f.bits;
    assert((((b | c) & VIEW_TYPE_ALL_BITS) & !c) & VIEW_TYPE_ALL_BITS == (b & !c)
        & VIEW_TYPE_ALL_BITS) by (bit_vector);
}

/// Removing a window-type flag no part of which is in the set leaves the set
/// unchanged.
pub proof fn lemma_view_type_remove_absent(s: ViewType, f: ViewType)
    requires
        s.wf(),
        s.bits & f.bits == 0,
    ensures
        s.spec_remove(f) == s,
{
    let b = s.bits;
    let c = f.bits;
    assert((b & !c) & VIEW_TYPE_ALL_BITS == b) by (bit_vector)
        requires
            b & c == 0,
            b & VIEW_TYPE_ALL_BITS == b,
    ;
}

/// Window-state flags: transient conditions a view can be in.
pub const STATE_BIT_MAXIMIZED: u32 = 0x1;
pub const STATE_BIT_FULLSCREEN: u32 = 0x2;
pub const STATE_BIT_RESIZING: u32 = 0x4;
pub const STATE_BIT_MOVING: u32 = 0x8;
pub const STATE_BIT_ACTIVATED: u32 = 0x10;
pub const VIEW_STATE_ALL_BITS: u32 = STATE_BIT_MAXIMIZED | STATE_BIT_FULLSCREEN
    | STATE_BIT_RESIZING | STATE_BIT_MOVING | STATE_BIT_ACTIVATED;

/// A set of window-state flags.
///
/// Values produced by this module's operations only ever hold bits inside
/// `VIEW_STATE_ALL_BITS` (see `wf`): unknown bits are masked out, never kept.
#[derive(Clone, Copy, Debug, PartialEq, Eq, Structural)]
pub struct ViewState {
    pub bits: u32,
}

impl ViewState {
    /// All bits of the set lie within the defined flag range.
    pub open spec fn wf(self) -> bool {
        self.bits & VIEW_STATE_ALL_BITS == self.bits
    }

    /// The set with no flags.
    pub open spec fn spec_empty() -> ViewState {
        ViewState { bits: 0 }
    }

    /// Returns the set with no flags.
    pub fn empty() -> (r: ViewState)
        ensures
            r == ViewState::spec_empty(),
    {
        ViewState { bits: 0 }
    }

    /// The set with the given bit pattern, unknown bits masked out.
    pub open spec fn spec_from_bits(bits: u32) -> ViewState {
        ViewState { bits: bits & VIEW_STATE_ALL_BITS }
    }

    /// Builds a set from a raw bit pattern, masking out unknown bits.
    pub fn from_bits(bits: u32) -> (r: ViewState)
        ensures
            r == ViewState::spec_from_bits(bits),
    {
        ViewState { bits: bits & VIEW_STATE_ALL_BITS }
    }

    /// The set with the flags of `flag` added, unknown bits masked out.
    pub open spec fn spec_insert(self, flag: ViewState) -> ViewState {
        ViewState { bits: (self.bits | flag.bits) & VIEW_STATE_ALL_BITS }
    }

    /// Adds the flags of `flag` to the set (idempotent).
    pub fn insert(&mut self, flag: ViewState)
        ensures
            *final(self) == old(self).spec_insert(flag),
    {
        self.bits = (self.bits | flag.bits) & VIEW_STATE_ALL_BITS;
    }

    /// The set with the flags of `flag` cleared.
    pub open spec fn spec_remove(self, flag: ViewState) -> ViewState {
        ViewState { bits: (self.bits & !flag.bits) & VIEW_STATE_ALL_BITS }
    }

    /// Clears the flags of `flag` from the set (idempotent).
    pub fn remove(&mut self, flag: ViewState)
        ensures
            *final(self) == old(self).spec_remove(flag),
    {
        self.bits = (self.bits & !flag.bits) & VIEW_STATE_ALL_BITS;
    }

    /// Whether every flag of `flag` is in the set.
    pub open spec fn spec_contains(self, flag: ViewState) -> bool {
        self.bits & flag.bits == flag.bits
    }

    /// Tests whether every flag of `flag` is in the set.
    pub fn contains(self, flag: ViewState) -> (r: bool)
        ensures
            r == self.spec_contains(flag),
    {
        self.bits & flag.bits == flag.bits
    }
}

/// Every window-state set produced by the flag operations stays within the
/// defined flag range.
pub proof fn lemma_view_state_ops_wf(s: ViewState, f: ViewState, bits: u32)
    ensures
        ViewState::spec_empty().wf(),
        ViewState::spec_from_bits(bits).wf(),
        s.spec_insert(f).wf(),
        s.spec_remove(f).wf(),
{
    assert(0u32 & VIEW_STATE_ALL_BITS == 0u32) by (bit_vector);
    assert((bits & VIEW_STATE_ALL_BITS) & VIEW_STATE_ALL_BITS == bits & VIEW_STATE_ALL_BITS)
        by (bit_vector);
    let b = s.bits;
    let c = f.bits;
    assert(((b | c) & VIEW_STATE_ALL_BITS) & VIEW_STATE_ALL_BITS == (b | c) & VIEW_STATE_ALL_BITS)
        by (bit_vector);
    assert(((b & !c) & VIEW_STATE_ALL_BITS) & VIEW_STATE_ALL_BITS == (b & !c)
        & VIEW_STATE_ALL_BITS) by (bit_vector);
}

/// Inserting a window-state flag twice gives the same set as inserting it once.
pub proof fn lemma_view_state_insert_idempotent(s: ViewState, f: ViewState)
    ensures
        s.spec_insert(f).spec_insert(f) == s.spec_insert(f),
{
    let b = s.bits;
    let c = f.bits;
    assert((((b | c) & VIEW_STATE_ALL_BITS) | c) & VIEW_STATE_ALL_BITS == (b | c)
        & VIEW_STATE_ALL_BITS) by (bit_vector);
}

/// Inserting a window-state flag and then removing it yields the original set
/// minus that flag, whether or not the flag was set before.
pub proof fn lemma_view_state_insert_then_remove(s: ViewState, f: ViewState)
    ensures
        s.spec_insert(f).spec_remove(f) == s.spec_remove(f),
{
    let b = s.bits;
    let c = f.bits;
    assert((((b | c) & VIEW_STATE_ALL_BITS) & !c) & VIEW_STATE_ALL_BITS == (b & !c)
        & VIEW_STATE_ALL_BITS) by (bit_vector);
}

/// Removing a window-state flag no part of which is in the set leaves the set
/// unchanged.
pub proof fn lemma_view_state_remove_absent(s: ViewState, f: ViewState)
    requires
        s.wf(),
        s.bits & f.bits == 0,
    ensures
        s.spec_remove(f) == s,
{
    let b = s.bits;
    let c = f.bits;
    assert((b & !c) & VIEW_STATE_ALL_BITS == b) by (bit_vector)
        requires
            b & c == 0,
            b & VIEW_STATE_ALL_BITS == b,
    ;
}

} // verus!
