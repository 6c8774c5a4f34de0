//! A canvas-backed 2D drawing layer.
//!
//! The drawing surface is a browser 2D canvas, reached through a
//! host-side handle.  This module holds everything that can be decided
//! without that handle: it translates the attribute language of the draw
//! calls into an explicit, ordered sequence of canvas operations
//! ([`CanvasOp`]), which the host replays one for one onto the real canvas.
//! Geometry travels through untouched as the bit patterns of the host's
//! 32-bit (or, for the canvas size, 64-bit) floats; this module never
//! interprets a coordinate, it only places and orders them.
//!
//! Alongside the operation trace, a [`CanvasContext`] mirrors the canvas's
//! save/restore transform state, so that the balance of `push_transform` and
//! `pop_transform` is part of each method's contract.

use vstd::prelude::*;

use crate::text::lines_of;
use crate::text::split_lines;
use crate::text::str_views;

verus! {

/// The bit pattern of the 32-bit float one.
pub const F32_ONE: u32 = 0x3F80_0000;

/// A point or direction: two 32-bit float bit patterns.
#[derive(Clone, Copy, PartialEq, Eq, Structural, Debug)]
pub struct Vec2 {
    pub x: u32,
    pub y: u32,
}

/// An axis-aligned rectangle: position and extent, as 32-bit float bit
/// patterns.
#[derive(Clone, Copy, PartialEq, Eq, Structural, Debug)]
pub struct Rect {
    pub x: u32,
    pub y: u32,
    pub w: u32,
    pub h: u32,
}

/// An affine 2D transform, in the canvas's six-element column order:
/// `a b` scale/rotate row one, `c d` row two, `e f` the translation.
/// Each entry is a 32-bit float bit pattern.
#[derive(Clone, Copy, PartialEq, Eq, Structural, Debug)]
pub struct Transform {
    pub a: u32,
    pub b: u32,
    pub c: u32,
    pub d: u32,
    pub e: u32,
    pub f: u32,
}

/// The identity transform: ones on the diagonal, zeros elsewhere.
pub open spec fn identity_transform() -> Transform {
    Transform { a: F32_ONE, b: 0, c: 0, d: F32_ONE, e: 0, f: 0 }
}

/// Where an arc starts, resolved by the host when the arc is replayed.
#[derive(Clone, Copy, PartialEq, Eq, Structural, Debug)]
pub enum ArcStart {
    /// No direction was given: the arc is centered on half its own sweep.
    Centered,
    /// The last `Forward` attribute's direction; the host turns it into a
    /// start angle.
    Forward(Vec2),
}

/// One drawing directive for a rectangle, consumed in order.
#[derive(Debug)]
pub enum RectAttr<'a> {
    /// Set the stroke color to the given style string.
    Stroke(&'a str),
    /// Set the fill color to the given style string.
    Fill(&'a str),
    /// Rotate the rectangle about its own geometric center by the given
    /// angle (a 32-bit float bit pattern, in radians).
    Rotate(u32),
}

/// One drawing directive for an arc, consumed in order.
#[derive(Debug)]
pub enum ArcAttr {
    /// Set the stroke color to the given style string.
    Stroke(&'static str),
    /// Set the fill color to the given style string.
    Fill(&'static str),
    /// Set the line dash pattern (32-bit float bit patterns).
    Dash(Vec<u32>),
    /// The sweep of the arc (a 32-bit float bit pattern, in radians); the
    /// last such attribute wins.  Without one the arc is a full turn.
    Angle(u32),
    /// Start the arc facing the given direction; the last such attribute
    /// wins.
    Forward(Vec2),
    /// Draw a pie sector: move to the center before and after the arc.
    Sector,
}

/// The abstract value of a [`RectAttr`]: color strings as character
/// sequences.
pub enum RectAttrV {
    Stroke(Seq<char>),
    Fill(Seq<char>),
    Rotate(u32),
}

/// The abstract value of an [`ArcAttr`].
pub enum ArcAttrV {
    Stroke(Seq<char>),
    Fill(Seq<char>),
    Dash(Seq<u32>),
    Angle(u32),
    Forward(Vec2),
    Sector,
}

impl<'a> View for RectAttr<'a> {
    type V = RectAttrV;

    open spec fn view(&self) -> RectAttrV {
        match self {
            RectAttr::Stroke(color) => RectAttrV::Stroke(color@),
            RectAttr::Fill(color) => RectAttrV::Fill(color@),
            RectAttr::Rotate(angle) => RectAttrV::Rotate(*angle),
        }
    }
}

impl View for ArcAttr {
    type V = ArcAttrV;

    open spec fn view(&self) -> ArcAttrV {
        match self {
            ArcAttr::Stroke(color) => ArcAttrV::Stroke(color@),
            ArcAttr::Fill(color) => ArcAttrV::Fill(color@),
            ArcAttr::Dash(dash) => ArcAttrV::Dash(dash@),
            ArcAttr::Angle(angle) => ArcAttrV::Angle(*angle),
            ArcAttr::Forward(dir) => ArcAttrV::Forward(*dir),
            ArcAttr::Sector => ArcAttrV::Sector,
        }
    }
}

/// The views of a list of rectangle attributes.
pub open spec fn rect_attr_views<'a>(attrs: Seq<RectAttr<'a>>) -> Seq<RectAttrV> {
    attrs.map_values(|a: RectAttr<'a>| a@)
}

/// The views of a list of arc attributes.
pub open spec fn arc_attr_views(attrs: Seq<ArcAttr>) -> Seq<ArcAttrV> {
    attrs.map_values(|a: ArcAttr| a@)
}

/// One operation on the host canvas, replayed one for one and in order.
///
/// Most payloads are 32-bit float bit patterns handed through unchanged.
/// The few operations whose arguments are derived by float arithmetic
/// carry their inputs instead, and the host does that arithmetic
/// when replaying: `ArcPath` carries sweep and start (the replayed arc runs
/// from start minus half the sweep to start plus half the sweep),
/// `RectPath` with `centered` is drawn at minus half the extent,
/// `TranslateToCenter` translates to the rectangle's center, and
/// `FillText` is drawn at `base` moved down `row` line heights.
#[derive(Debug, PartialEq)]
pub enum CanvasOp {
    /// Save the canvas state.
    Save,
    /// Restore the last saved canvas state.
    Restore,
    /// Replace the active transform.
    SetTransform(Transform),
    /// Compose the active transform with the given one.
    ApplyTransform(Transform),
    /// Clear the rectangle from the origin to the given size (64-bit float
    /// bit patterns, the canvas's own size).
    ClearRect { w: u64, h: u64 },
    /// Begin a fresh path.
    BeginPath,
    /// Move the path position.
    MoveTo(Vec2),
    /// Add a line segment to the path.
    LineTo(Vec2),
    /// Add an arc around `center`; `sweep` of `None` is a full turn.
    ArcPath { center: Vec2, radius: u32, sweep: Option<u32>, start: ArcStart },
    /// Add a rectangle path; `centered` places it about the origin instead
    /// of at its own position.
    RectPath { rect: Rect, centered: bool },
    /// Translate to the center of the given rectangle.
    TranslateToCenter(Rect),
    /// Rotate by the given angle (a 32-bit float bit pattern, in radians).
    Rotate(u32),
    /// Stroke the current path.
    Stroke,
    /// Fill the current path (non-zero winding).
    Fill,
    /// Set the stroke style to the given color string.
    SetStrokeColor(String),
    /// Set the fill style to the given color string.
    SetFillColor(String),
    /// Set the line dash pattern (32-bit float bit patterns).
    SetLineDash(Vec<u32>),
    /// Set the font.
    SetFont(String),
    /// Align text to the left.
    SetTextAlign,
    /// Use the hanging text baseline.
    SetTextBaseline,
    /// Draw one line of text at `base`, moved down `row` line heights.
    FillText { text: String, base: Vec2, row: u64 },
}

/// The abstract value of a [`CanvasOp`]: strings and dash patterns as
/// sequences.
pub enum CanvasOpV {
    Save,
    Restore,
    SetTransform(Transform),
    ApplyTransform(Transform),
    ClearRect { w: u64, h: u64 },
    BeginPath,
    MoveTo(Vec2),
    LineTo(Vec2),
    ArcPath { center: Vec2, radius: u32, sweep: Option<u32>, start: ArcStart },
    RectPath { rect: Rect, centered: bool },
    TranslateToCenter(Rect),
    Rotate(u32),
    Stroke,
    Fill,
    SetStrokeColor(Seq<char>),
    SetFillColor(Seq<char>),
    SetLineDash(Seq<u32>),
    SetFont(Seq<char>),
    SetTextAlign,
    SetTextBaseline,
    FillText { text: Seq<char>, base: Vec2, row: u64 },
}

impl View for CanvasOp {
    type V = CanvasOpV;

    open spec fn view(&self) -> CanvasOpV {
        match self {
            CanvasOp::Save => CanvasOpV::Save,
            CanvasOp::Restore => CanvasOpV::Restore,
            CanvasOp::SetTransform(t) => CanvasOpV::SetTransform(*t),
            CanvasOp::ApplyTransform(t) => CanvasOpV::ApplyTransform(*t),
            CanvasOp::ClearRect { w, h } => CanvasOpV::ClearRect { w: *w, h: *h },
            CanvasOp::BeginPath => CanvasOpV::BeginPath,
            CanvasOp::MoveTo(p) => CanvasOpV::MoveTo(*p),
            CanvasOp::LineTo(p) => CanvasOpV::LineTo(*p),
            CanvasOp::ArcPath { center, radius, sweep, start } => CanvasOpV::ArcPath {
                center: *center,
                radius: *radius,
                sweep: *sweep,
                start: *start,
            },
            CanvasOp::RectPath { rect, centered } => CanvasOpV::RectPath {
                rect: *rect,
                centered: *centered,
            },
            CanvasOp::TranslateToCenter(r) => CanvasOpV::TranslateToCenter(*r),
            CanvasOp::Rotate(a) => CanvasOpV::Rotate(*a),
            CanvasOp::Stroke => CanvasOpV::Stroke,
            CanvasOp::Fill => CanvasOpV::Fill,
            CanvasOp::SetStrokeColor(c) => CanvasOpV::SetStrokeColor(c@),
            CanvasOp::SetFillColor(c) => CanvasOpV::SetFillColor(c@),
            CanvasOp::SetLineDash(d) => CanvasOpV::SetLineDash(d@),
            CanvasOp::SetFont(f) => CanvasOpV::SetFont(f@),
            CanvasOp::SetTextAlign => CanvasOpV::SetTextAlign,
            CanvasOp::SetTextBaseline => CanvasOpV::SetTextBaseline,
            CanvasOp::FillText { text, base, row } => CanvasOpV::FillText {
                text: text@,
                base: *base,
                row: *row,
            },
        }
    }
}

/// The abstract state of a drawing context: the operations recorded so far,
/// the active transform (as the ordered composition of the transforms set or
/// applied since the last full reset), and the stack of transform states
/// saved by `push_transform`.
#[verifier::ext_equal]
pub struct CanvasModel {
    pub trace: Seq<CanvasOpV>,
    pub current: Seq<Transform>,
    pub saved: Seq<Seq<Transform>>,
}

/// Translates draw calls into canvas operations and mirrors the canvas's
/// save/restore transform state.
///
/// The host hands each batch of recorded operations to the real canvas with
/// [`CanvasContext::take_ops`].
pub struct CanvasContext {
    /// Operations recorded and not yet taken by the host.
    pub ops: Vec<CanvasOp>,
    /// The active transform, as the transforms composed since the last
    /// `set_transform` (empty means untouched, the identity).
    pub current: Vec<Transform>,
    /// The transform states saved by `push_transform` and not yet restored.
    pub saved: Vec<Vec<Transform>>,
}

impl View for CanvasContext {
    type V = CanvasModel;

    open spec fn view(&self) -> CanvasModel {
        CanvasModel {
            trace: self.ops@.map_values(|op: CanvasOp| op@),
            current: self.current@,
            saved: self.saved@.map_values(|v: Vec<Transform>| v@),
        }
    }
}

/// `push_transform` saves the active transform and composes the given one
/// onto it.
pub open spec fn spec_push_transform(m: CanvasModel, t: Transform) -> CanvasModel {
    CanvasModel {
        trace: m.trace + seq![CanvasOpV::Save, CanvasOpV::ApplyTransform(t)],
        current: m.current.push(t),
        saved: m.saved.push(m.current),
    }
}

/// `pop_transform` restores the last saved transform state; with nothing
/// saved, the restore is a no-op on the state.
pub open spec fn spec_pop_transform(m: CanvasModel) -> CanvasModel {
    if m.saved.len() > 0 {
        CanvasModel {
            trace: m.trace.push(CanvasOpV::Restore),
            current: m.saved.last(),
            saved: m.saved.drop_last(),
        }
    } else {
        CanvasModel { trace: m.trace.push(CanvasOpV::Restore), ..m }
    }
}

/// A push of any transform followed immediately by a pop leaves the active
/// transform, and the whole stack of saved states, as they were before the
/// push.
pub proof fn lemma_push_pop_restores_transform(m: CanvasModel, t: Transform)
    ensures
        spec_pop_transform(spec_push_transform(m, t)).current == m.current,
        spec_pop_transform(spec_push_transform(m, t)).saved == m.saved,
{
    assert(m.saved.push(m.current).drop_last() =~= m.saved);
}

/// The operations of one `draw_line` call.
pub open spec fn line_trace(from: Vec2, to: Vec2, color: Seq<char>) -> Seq<CanvasOpV> {
    seq![
        CanvasOpV::Save,
        CanvasOpV::SetStrokeColor(color),
        CanvasOpV::BeginPath,
        CanvasOpV::MoveTo(from),
        CanvasOpV::LineTo(to),
        CanvasOpV::Stroke,
        CanvasOpV::Restore,
    ]
}

/// The operations of one `clear` call: reset the transform, clear the whole
/// visible area, and put the transform back.
pub open spec fn clear_trace(w: u64, h: u64) -> Seq<CanvasOpV> {
    seq![
        CanvasOpV::Save,
        CanvasOpV::SetTransform(identity_transform()),
        CanvasOpV::ClearRect { w, h },
        CanvasOpV::Restore,
    ]
}

impl CanvasContext {
    /// A fresh context: nothing recorded, the transform untouched, nothing
    /// saved.
    pub fn new() -> (ctx: CanvasContext)
        ensures
            ctx@.trace == Seq::<CanvasOpV>::empty(),
            ctx@.current == Seq::<Transform>::empty(),
            ctx@.saved == Seq::<Seq<Transform>>::empty(),
    {
        let ctx = CanvasContext { ops: Vec::new(), current: Vec::new(), saved: Vec::new() };
        proof {
            assert(ctx@.trace =~= Seq::<CanvasOpV>::empty());
            assert(ctx@.saved =~= Seq::<Seq<Transform>>::empty());
        }
        ctx
    }

    /// Records one operation.
    fn emit(&mut self, op: CanvasOp)
        ensures
            final(self)@.trace == old(self)@.trace.push(op@),
            final(self)@.current == old(self)@.current,
            final(self)@.saved == old(self)@.saved,
    {
        self.ops.push(op);
        proof {
            assert(self@.trace =~= old(self)@.trace.push(op@));
        }
    }

    /// Hands the recorded operations to the host, leaving the record empty.
    /// The host replays them in order onto the real canvas.
    pub fn take_ops(&mut self) -> (ops: Vec<CanvasOp>)
        ensures
            ops@.map_values(|op: CanvasOp| op@) == old(self)@.trace,
            final(self)@.trace == Seq::<CanvasOpV>::empty(),
            final(self)@.current == old(self)@.current,
            final(self)@.saved == old(self)@.saved,
    {
        let mut out: Vec<CanvasOp> = Vec::new();
        core::mem::swap(&mut self.ops, &mut out);
        proof {
            assert(self@.trace =~= Seq::<CanvasOpV>::empty());
        }
        out
    }

    /// Replaces the active transform.
    pub fn set_transform(&mut self, transform: &Transform)
        ensures
            final(self)@.trace == old(self)@.trace.push(CanvasOpV::SetTransform(*transform)),
            final(self)@.current == seq![*transform],
            final(self)@.saved == old(self)@.saved,
    {
        self.current.clear();
        self.current.push(*transform);
        self.emit(CanvasOp::SetTransform(*transform));
        proof {
            assert(self@.current =~= seq![*transform]);
        }
    }

    /// Saves the canvas state, then composes the given transform onto the
    /// active one.  The caller must balance each push with a pop.
    pub fn push_transform(&mut self, transform: &Transform)
        ensures
            final(self)@ == spec_push_transform(old(self)@, *transform),
    {
        let ghost m = self@;
        let saved_current = clone_transforms(&self.current);
        self.saved.push(saved_current);
        self.current.push(*transform);
        self.emit(CanvasOp::Save);
        self.emit(CanvasOp::ApplyTransform(*transform));
        proof {
            assert(self@.saved =~~= m.saved.push(m.current));
            assert(self@.trace =~= m.trace + seq![
                CanvasOpV::Save,
                CanvasOpV::ApplyTransform(*transform),
            ]);
            assert(self@ =~~= spec_push_transform(m, *transform));
        }
    }

    /// Restores the last state saved by `push_transform`; with nothing
    /// saved, the canvas's restore does nothing.
    pub fn pop_transform(&mut self)
        ensures
            final(self)@ == spec_pop_transform(old(self)@),
    {
        let ghost m = self@;
        match self.saved.pop() {
            Some(top) => {
                self.current = top;
            },
            None => {},
        }
        self.emit(CanvasOp::Restore);
        proof {
            if m.saved.len() > 0 {
                assert(self@.saved =~~= m.saved.drop_last());
            }
            assert(self@ =~~= spec_pop_transform(m));
        }
    }

    /// Clears the whole visible area, whose size in device units the host
    /// queries from the canvas, without disturbing the active transform:
    /// the reset to the identity happens between a save and a restore.
    pub fn clear(&mut self, width: u64, height: u64)
        ensures
            final(self)@.trace == old(self)@.trace + clear_trace(width, height),
            final(self)@.current == old(self)@.current,
            final(self)@.saved == old(self)@.saved,
    {
        self.emit(CanvasOp::Save);
        self.emit(CanvasOp::SetTransform(make_identity()));
        self.emit(CanvasOp::ClearRect { w: width, h: height });
        self.emit(CanvasOp::Restore);
        proof {
            assert(self@.trace =~= old(self)@.trace + clear_trace(width, height));
        }
    }

    /// Draws a single line segment in the given stroke color.
    pub fn draw_line(&mut self, from: Vec2, to: Vec2, color: &str)
        ensures
            final(self)@.trace == old(self)@.trace + line_trace(from, to, color@),
            final(self)@.current == old(self)@.current,
            final(self)@.saved == old(self)@.saved,
    {
        self.emit(CanvasOp::Save);
        self.emit(CanvasOp::SetStrokeColor(color.to_owned()));
        self.emit(CanvasOp::BeginPath);
        self.emit(CanvasOp::MoveTo(from));
        self.emit(CanvasOp::LineTo(to));
        self.emit(CanvasOp::Stroke);
        self.emit(CanvasOp::Restore);
        proof {
            assert(self@.trace =~= old(self)@.trace + line_trace(from, to, color@));
        }
    }
}

impl CanvasContext {
    /// Draws a rectangle, steered by its attribute list: colors are set and
    /// painted in attribute order, and any rotation re-centers the
    /// rectangle on its own middle first.
    pub fn draw_rect(&mut self, rect: Rect, attrs: &[RectAttr])
        ensures
            final(self)@.trace == old(self)@.trace + rect_trace(rect, rect_attr_views(attrs@)),
            final(self)@.current == old(self)@.current,
            final(self)@.saved == old(self)@.saved,
    {
        let ghost av = rect_attr_views(attrs@);
        let ghost t0 = self@.trace;
        self.emit(CanvasOp::Save);
        let mut centered = false;
        let mut i: usize = 0;
        proof {
            assert(av.take(0) =~= Seq::<RectAttrV>::empty());
            assert(self@.trace =~= t0 + seq![CanvasOpV::Save] + rect_style_ops(rect, av.take(0)));
        }
        while i < attrs.len()
            invariant
                0 <= i as int <= attrs@.len(),
                av == rect_attr_views(attrs@),
                self@.trace == t0 + seq![CanvasOpV::Save] + rect_style_ops(rect, av.take(i as int)),
                centered == has_rotate(av.take(i as int)),
                self@.current == old(self)@.current,
                self@.saved == old(self)@.saved,
            decreases attrs@.len() - i as int,
        {
            let ghost pre = av.take(i as int);
            match &attrs[i] {
                RectAttr::Stroke(color) => {
                    self.emit(CanvasOp::SetStrokeColor((*color).to_owned()));
                },
                RectAttr::Fill(color) => {
                    self.emit(CanvasOp::SetFillColor((*color).to_owned()));
                },
                RectAttr::Rotate(angle) => {
                    self.emit(CanvasOp::TranslateToCenter(rect));
                    self.emit(CanvasOp::Rotate(*angle));
                    centered = true;
                },
            }
            proof {
                let next = av.take(i as int + 1);
                assert(next.drop_last() =~= pre);
                assert(next.last() == av[i as int]);
                assert(av[i as int] == attrs@[i as int]@);
                assert(self@.trace =~= t0 + seq![CanvasOpV::Save] + rect_style_ops(rect, next));
                if attrs@[i as int]@ is Rotate {
                    assert(next[i as int] is Rotate);
                    assert(has_rotate(next));
                } else {
                    assert(has_rotate(pre) ==> has_rotate(next)) by {
                        if has_rotate(pre) {
                            let j = choose|j: int| 0 <= j < pre.len() && pre[j] is Rotate;
                            assert(next[j] is Rotate);
                        }
                    }
                    assert(has_rotate(next) ==> has_rotate(pre)) by {
                        if has_rotate(next) {
                            let j = choose|j: int| 0 <= j < next.len() && next[j] is Rotate;
                            assert(j < i as int);
                            assert(pre[j] is Rotate);
                        }
                    }
                }
            }
            i += 1;
        }
        proof {
            assert(av.take(attrs@.len() as int) =~= av);
        }
        self.emit(CanvasOp::BeginPath);
        self.emit(CanvasOp::RectPath { rect, centered });
        let ghost mid = self@.trace;
        let mut k: usize = 0;
        proof {
            assert(av.take(0) =~= Seq::<RectAttrV>::empty());
            assert(mid =~= mid + rect_paint_ops(av.take(0)));
        }
        while k < attrs.len()
            invariant
                0 <= k as int <= attrs@.len(),
                av == rect_attr_views(attrs@),
                self@.trace == mid + rect_paint_ops(av.take(k as int)),
                self@.current == old(self)@.current,
                self@.saved == old(self)@.saved,
            decreases attrs@.len() - k as int,
        {
            let ghost pre = av.take(k as int);
            match &attrs[k] {
                RectAttr::Stroke(_) => {
                    self.emit(CanvasOp::Stroke);
                },
                RectAttr::Fill(_) => {
                    self.emit(CanvasOp::Fill);
                },
                RectAttr::Rotate(_) => {},
            }
            proof {
                let next = av.take(k as int + 1);
                assert(next.drop_last() =~= pre);
                assert(next.last() == av[k as int]);
                assert(av[k as int] == attrs@[k as int]@);
                assert(self@.trace =~= mid + rect_paint_ops(next));
            }
            k += 1;
        }
        self.emit(CanvasOp::Restore);
        proof {
            assert(av.take(attrs@.len() as int) =~= av);
            assert(self@.trace =~= old(self)@.trace + rect_trace(rect, av));
        }
    }

    /// Draws an arc, steered by its attribute list: colors and dash
    /// patterns are set in attribute order; the last `Angle` gives the
    /// sweep (a full turn without one); the last `Forward` gives the start
    /// direction (otherwise the arc is centered on half its sweep); a
    /// `Sector` brackets the arc with moves to the center, so a fill
    /// yields a pie sector.
    pub fn draw_arc(&mut self, position: Vec2, radius: u32, attrs: &[ArcAttr])
        ensures
            final(self)@.trace == old(self)@.trace + arc_trace(
                position,
                radius,
                arc_attr_views(attrs@),
            ),
            final(self)@.current == old(self)@.current,
            final(self)@.saved == old(self)@.saved,
    {
        let ghost av = arc_attr_views(attrs@);
        let ghost t0 = self@.trace;
        self.emit(CanvasOp::Save);
        let mut sweep: Option<u32> = None;
        let mut start: ArcStart = ArcStart::Centered;
        let mut sector = false;
        let mut i: usize = 0;
        proof {
            assert(av.take(0) =~= Seq::<ArcAttrV>::empty());
            assert(self@.trace =~= t0 + seq![CanvasOpV::Save] + arc_style_ops(av.take(0)));
        }
        while i < attrs.len()
            invariant
                0 <= i as int <= attrs@.len(),
                av == arc_attr_views(attrs@),
                self@.trace == t0 + seq![CanvasOpV::Save] + arc_style_ops(av.take(i as int)),
                sweep == last_sweep(av.take(i as int)),
                start == arc_start_of(av.take(i as int)),
                sector == has_sector(av.take(i as int)),
                self@.current == old(self)@.current,
                self@.saved == old(self)@.saved,
            decreases attrs@.len() - i as int,
        {
            let ghost pre = av.take(i as int);
            match &attrs[i] {
                ArcAttr::Stroke(color) => {
                    self.emit(CanvasOp::SetStrokeColor((*color).to_owned()));
                },
                ArcAttr::Fill(color) => {
                    self.emit(CanvasOp::SetFillColor((*color).to_owned()));
                },
                ArcAttr::Dash(dash) => {
                    self.emit(CanvasOp::SetLineDash(copy_dash(dash)));
                },
                ArcAttr::Angle(angle) => {
                    sweep = Some(*angle);
                },
                ArcAttr::Forward(dir) => {
                    start = ArcStart::Forward(*dir);
                },
                ArcAttr::Sector => {
                    sector = true;
                },
            }
            proof {
                let next = av.take(i as int + 1);
                assert(next.drop_last() =~= pre);
                assert(next.last() == av[i as int]);
                assert(av[i as int] == attrs@[i as int]@);
                assert(self@.trace =~= t0 + seq![CanvasOpV::Save] + arc_style_ops(next));
                if attrs@[i as int]@ is Sector {
                    assert(next[i as int] is Sector);
                    assert(has_sector(next));
                } else {
                    assert(has_sector(pre) ==> has_sector(next)) by {
                        if has_sector(pre) {
                            let j = choose|j: int| 0 <= j < pre.len() && pre[j] is Sector;
                            assert(next[j] is Sector);
                        }
                    }
                    assert(has_sector(next) ==> has_sector(pre)) by {
                        if has_sector(next) {
                            let j = choose|j: int| 0 <= j < next.len() && next[j] is Sector;
                            assert(j < i as int);
                            assert(pre[j] is Sector);
                        }
                    }
                }
            }
            i += 1;
        }
        proof {
            assert(av.take(attrs@.len() as int) =~= av);
        }
        self.emit(CanvasOp::BeginPath);
        if sector {
            self.emit(CanvasOp::MoveTo(position));
        }
        self.emit(CanvasOp::ArcPath { center: position, radius, sweep, start });
        if sector {
            self.emit(CanvasOp::MoveTo(position));
        }
        let ghost mid = self@.trace;
        let mut k: usize = 0;
        proof {
            assert(av.take(0) =~= Seq::<ArcAttrV>::empty());
            assert(mid =~= mid + arc_paint_ops(av.take(0)));
        }
        while k < attrs.len()
            invariant
                0 <= k as int <= attrs@.len(),
                av == arc_attr_views(attrs@),
                self@.trace == mid + arc_paint_ops(av.take(k as int)),
                self@.current == old(self)@.current,
                self@.saved == old(self)@.saved,
            decreases attrs@.len() - k as int,
        {
            let ghost pre = av.take(k as int);
            match &attrs[k] {
                ArcAttr::Stroke(_) => {
                    self.emit(CanvasOp::Stroke);
                },
                ArcAttr::Fill(_) => {
                    self.emit(CanvasOp::Fill);
                },
                ArcAttr::Dash(_) => {},
                ArcAttr::Angle(_) => {},
                ArcAttr::Forward(_) => {},
                ArcAttr::Sector => {},
            }
            proof {
                let next = av.take(k as int + 1);
                assert(next.drop_last() =~= pre);
                assert(next.last() == av[k as int]);
                assert(av[k as int] == attrs@[k as int]@);
                assert(self@.trace =~= mid + arc_paint_ops(next));
            }
            k += 1;
        }
        self.emit(CanvasOp::Restore);
        proof {
            assert(av.take(attrs@.len() as int) =~= av);
            assert(self@.trace =~= old(self)@.trace + arc_trace(position, radius, av));
        }
    }
}

/// The height of one line of label text, in pixels.
pub const LINE_HEIGHT: u64 = 10;

/// Why a label could not be measured: the host canvas failed to measure a
/// line of its text.  Measurement is the one canvas operation that can
/// fail, and the failure is reported, not a crash.
#[derive(Clone, Copy, PartialEq, Eq, Structural, Debug)]
pub enum CanvasError {
    UnmeasurableText,
}

impl CanvasError {
    /// A short description of the failure.
    pub fn message(&self) -> (text: &'static str)
        ensures
            text@ == "unmeasurable text"@,
    {
        "unmeasurable text"
    }
}

/// The view of an optional borrowed string.
pub open spec fn opt_str_view(o: Option<&str>) -> Option<Seq<char>> {
    match o {
        Some(s) => Some(s@),
        None => None,
    }
}

/// The transform a scaled label draws under: the label's position as the
/// translation and the scale on the diagonal — the composition of the
/// translation after the scale, with its entries placed directly (the
/// zeros are the bit pattern of the 32-bit float zero).
pub open spec fn label_transform(pos: Vec2, scale: Vec2) -> Transform {
    Transform { a: scale.x, b: 0, c: 0, d: scale.y, e: pos.x, f: pos.y }
}

/// The text operations of a label's lines: line `n` is drawn at the base
/// position, moved down `n` line heights.
pub open spec fn fill_text_ops(lines: Seq<Seq<char>>, base: Vec2) -> Seq<CanvasOpV>
    decreases lines.len(),
{
    if lines.len() == 0 {
        Seq::empty()
    } else {
        fill_text_ops(lines.drop_last(), base) + seq![
            CanvasOpV::FillText {
                text: lines.last(),
                base,
                row: (lines.len() - 1) as u64,
            },
        ]
    }
}

/// The operations of one `draw_label` call: under an optional scale
/// transform and optional color and font, each line of the label is drawn
/// left-aligned on a hanging baseline, one line height below the last.
/// With a scale the lines are drawn from the origin, the transform
/// carrying the position; without one they are drawn from the position
/// itself.
pub open spec fn label_trace(
    label: Seq<char>,
    pos: Vec2,
    scale: Option<Vec2>,
    font: Option<Seq<char>>,
    color: Option<Seq<char>>,
) -> Seq<CanvasOpV> {
    let base = if scale is Some {
        Vec2 { x: 0, y: 0 }
    } else {
        pos
    };
    let scale_ops: Seq<CanvasOpV> = match scale {
        Some(sc) => seq![CanvasOpV::Save, CanvasOpV::ApplyTransform(label_transform(pos, sc))],
        None => Seq::empty(),
    };
    let color_ops: Seq<CanvasOpV> = match color {
        Some(c) => seq![CanvasOpV::SetFillColor(c)],
        None => Seq::empty(),
    };
    let font_ops: Seq<CanvasOpV> = match font {
        Some(f) => seq![CanvasOpV::SetFont(f)],
        None => Seq::empty(),
    };
    let end_ops: Seq<CanvasOpV> = if scale is Some {
        seq![CanvasOpV::Restore]
    } else {
        Seq::empty()
    };
    seq![CanvasOpV::Save] + scale_ops + color_ops + font_ops + seq![
        CanvasOpV::SetTextAlign,
        CanvasOpV::SetTextBaseline,
    ] + fill_text_ops(lines_of(label), base) + end_ops + seq![CanvasOpV::Restore]
}

/// The widest of the measured line widths: each line is compared against
/// the running maximum, which starts at
/// zero.  The widths are the bit patterns of non-negative 64-bit floats,
/// whose unsigned order agrees with the float order.
pub open spec fn max_width(widths: Seq<u64>) -> u64
    decreases widths.len(),
{
    if widths.len() == 0 {
        0
    } else {
        let m = max_width(widths.drop_last());
        if m < widths.last() {
            widths.last()
        } else {
            m
        }
    }
}

impl CanvasContext {
    /// Draws a multi-line label.  Splits the label on newlines and draws
    /// each line one line height below the last, left-aligned on a hanging
    /// baseline; an optional scale, font and color apply to all lines.
    pub fn draw_label(
        &mut self,
        label: &str,
        pos: Vec2,
        scale: Option<Vec2>,
        font: Option<&str>,
        color: Option<&str>,
    )
        ensures
            final(self)@.trace == old(self)@.trace + label_trace(
                label@,
                pos,
                scale,
                opt_str_view(font),
                opt_str_view(color),
            ),
            final(self)@.current == old(self)@.current,
            final(self)@.saved == old(self)@.saved,
    {
        self.emit(CanvasOp::Save);
        let base = match scale {
            Some(sc) => {
                self.emit(CanvasOp::Save);
                self.emit(
                    CanvasOp::ApplyTransform(
                        Transform { a: sc.x, b: 0, c: 0, d: sc.y, e: pos.x, f: pos.y },
                    ),
                );
                Vec2 { x: 0, y: 0 }
            },
            None => pos,
        };
        match color {
            Some(c) => {
                self.emit(CanvasOp::SetFillColor(c.to_owned()));
            },
            None => {},
        }
        match font {
            Some(f) => {
                self.emit(CanvasOp::SetFont(f.to_owned()));
            },
            None => {},
        }
        self.emit(CanvasOp::SetTextAlign);
        self.emit(CanvasOp::SetTextBaseline);
        let lines = split_lines(label);
        let ghost lv = str_views(lines@);
        let ghost head = self@.trace;
        let mut i: usize = 0;
        proof {
            assert(lv.take(0) =~= Seq::<Seq<char>>::empty());
            assert(self@.trace =~= head + fill_text_ops(lv.take(0), base));
        }
        while i < lines.len()
            invariant
                0 <= i as int <= lines@.len(),
                lv == str_views(lines@),
                self@.trace == head + fill_text_ops(lv.take(i as int), base),
                self@.current == old(self)@.current,
                self@.saved == old(self)@.saved,
            decreases lines@.len() - i as int,
        {
            let ghost pre = lv.take(i as int);
            let text = lines[i].clone();
            self.emit(CanvasOp::FillText { text, base, row: i as u64 });
            proof {
                let next = lv.take(i as int + 1);
                assert(next.drop_last() =~= pre);
                assert(next.last() == lv[i as int]);
                assert(lv[i as int] == lines@[i as int]@);
                assert(self@.trace =~= head + fill_text_ops(next, base));
            }
            i += 1;
        }
        proof {
            assert(lv.take(lines@.len() as int) =~= lv);
        }
        if scale.is_some() {
            self.emit(CanvasOp::Restore);
        }
        self.emit(CanvasOp::Restore);
        proof {
            assert(self@.trace =~= old(self)@.trace + label_trace(
                label@,
                pos,
                scale,
                opt_str_view(font),
                opt_str_view(color),
            ));
        }
    }

    /// Measures a multi-line label from the per-line widths the host
    /// measured on the canvas: the width is the widest line's width (a
    /// 64-bit float bit pattern; the host's widths are non-negative, so
    /// the unsigned order used here is the float order), and the height is
    /// one line height per line of the label.
    pub fn measure_label(&self, label: &str, line_widths: &Vec<u64>) -> (size: (u64, u64))
        requires
            line_widths@.len() == lines_of(label@).len(),
            line_widths@.len() * LINE_HEIGHT <= u64::MAX,
        ensures
            size.0 == max_width(line_widths@),
            size.1 == LINE_HEIGHT * lines_of(label@).len(),
    {
        let mut widest: u64 = 0;
        let mut i: usize = 0;
        proof {
            assert(line_widths@.take(0) =~= Seq::<u64>::empty());
        }
        while i < line_widths.len()
            invariant
                0 <= i as int <= line_widths@.len(),
                widest == max_width(line_widths@.take(i as int)),
            decreases line_widths@.len() - i as int,
        {
            let ghost pre = line_widths@.take(i as int);
            if widest < line_widths[i] {
                widest = line_widths[i];
            }
            proof {
                let next = line_widths@.take(i as int + 1);
                assert(next.drop_last() =~= pre);
                assert(next.last() == line_widths@[i as int]);
            }
            i += 1;
        }
        proof {
            assert(line_widths@.take(line_widths@.len() as int) =~= line_widths@);
        }
        let height = LINE_HEIGHT * (line_widths.len() as u64);
        (widest, height)
    }
}

/// The identity transform as a value.
pub fn make_identity() -> (t: Transform)
    ensures
        t == identity_transform(),
{
    Transform { a: F32_ONE, b: 0, c: 0, d: F32_ONE, e: 0, f: 0 }
}

/// The style operations of one rectangle attribute: colors set a style; a
/// rotation re-centers on the rectangle's own middle and turns.
pub open spec fn rect_attr_op(rect: Rect, attr: RectAttrV) -> Seq<CanvasOpV> {
    match attr {
        RectAttrV::Stroke(color) => seq![CanvasOpV::SetStrokeColor(color)],
        RectAttrV::Fill(color) => seq![CanvasOpV::SetFillColor(color)],
        RectAttrV::Rotate(angle) => seq![
            CanvasOpV::TranslateToCenter(rect),
            CanvasOpV::Rotate(angle),
        ],
    }
}

/// The style pass over a rectangle's attribute list, in attribute order.
pub open spec fn rect_style_ops(rect: Rect, attrs: Seq<RectAttrV>) -> Seq<CanvasOpV>
    decreases attrs.len(),
{
    if attrs.len() == 0 {
        Seq::empty()
    } else {
        rect_style_ops(rect, attrs.drop_last()) + rect_attr_op(rect, attrs.last())
    }
}

/// The paint operation of one rectangle attribute: strokes and fills are
/// executed in attribute order, after the path is built.
pub open spec fn rect_paint_op(attr: RectAttrV) -> Seq<CanvasOpV> {
    match attr {
        RectAttrV::Stroke(color) => seq![CanvasOpV::Stroke],
        RectAttrV::Fill(color) => seq![CanvasOpV::Fill],
        RectAttrV::Rotate(angle) => Seq::empty(),
    }
}

/// The paint pass over a rectangle's attribute list, in attribute order.
pub open spec fn rect_paint_ops(attrs: Seq<RectAttrV>) -> Seq<CanvasOpV>
    decreases attrs.len(),
{
    if attrs.len() == 0 {
        Seq::empty()
    } else {
        rect_paint_ops(attrs.drop_last()) + rect_paint_op(attrs.last())
    }
}

/// Whether any attribute rotates the rectangle.
pub open spec fn has_rotate(attrs: Seq<RectAttrV>) -> bool {
    exists|i: int| 0 <= i < attrs.len() && attrs[i] is Rotate
}

/// The operations of one `draw_rect` call: styles and rotations in
/// attribute order, the rectangle path (about its own center whenever a
/// rotation occurred), then strokes and fills in attribute order.
pub open spec fn rect_trace(rect: Rect, attrs: Seq<RectAttrV>) -> Seq<CanvasOpV> {
    seq![CanvasOpV::Save] + rect_style_ops(rect, attrs) + seq![
        CanvasOpV::BeginPath,
        CanvasOpV::RectPath { rect, centered: has_rotate(attrs) },
    ] + rect_paint_ops(attrs) + seq![CanvasOpV::Restore]
}

/// A rectangle drawn with any `Rotate` attribute is re-centered on its own
/// geometric center before the turn, and its path is laid about that
/// center, not about the canvas origin.
pub proof fn lemma_rotate_centers_on_rect(rect: Rect, attrs: Seq<RectAttrV>, i: int)
    requires
        0 <= i < attrs.len(),
        attrs[i] is Rotate,
    ensures
        rect_trace(rect, attrs) =~= seq![CanvasOpV::Save] + rect_style_ops(rect, attrs) + seq![
            CanvasOpV::BeginPath,
            CanvasOpV::RectPath { rect, centered: true },
        ] + rect_paint_ops(attrs) + seq![CanvasOpV::Restore],
        exists|j: int|
            0 <= j < rect_style_ops(rect, attrs).len() - 1
                && #[trigger] rect_style_ops(rect, attrs)[j] == CanvasOpV::TranslateToCenter(rect)
                && rect_style_ops(rect, attrs)[j + 1] == CanvasOpV::Rotate(attrs[i]->Rotate_0),
    decreases attrs.len(),
{
    assert(has_rotate(attrs));
    let style = rect_style_ops(rect, attrs);
    let prefix = rect_style_ops(rect, attrs.drop_last());
    if i == attrs.len() - 1 {
        assert(style[prefix.len() as int] == CanvasOpV::TranslateToCenter(rect));
        assert(style[prefix.len() as int + 1] == CanvasOpV::Rotate(attrs[i]->Rotate_0));
    } else {
        lemma_rotate_centers_on_rect(rect, attrs.drop_last(), i);
        let j = choose|j: int|
            0 <= j < prefix.len() - 1 && #[trigger] prefix[j] == CanvasOpV::TranslateToCenter(rect)
                && prefix[j + 1] == CanvasOpV::Rotate(attrs.drop_last()[i]->Rotate_0);
        assert(style[j] == CanvasOpV::TranslateToCenter(rect));
        assert(style[j + 1] == CanvasOpV::Rotate(attrs[i]->Rotate_0));
    }
}

/// The style operations of one arc attribute: colors and dash patterns set
/// state; sweep, direction and sector only steer the arc itself.
pub open spec fn arc_style_op(attr: ArcAttrV) -> Seq<CanvasOpV> {
    match attr {
        ArcAttrV::Stroke(color) => seq![CanvasOpV::SetStrokeColor(color)],
        ArcAttrV::Fill(color) => seq![CanvasOpV::SetFillColor(color)],
        ArcAttrV::Dash(dash) => seq![CanvasOpV::SetLineDash(dash)],
        ArcAttrV::Angle(angle) => Seq::empty(),
        ArcAttrV::Forward(dir) => Seq::empty(),
        ArcAttrV::Sector => Seq::empty(),
    }
}

/// The style pass over an arc's attribute list, in attribute order.
pub open spec fn arc_style_ops(attrs: Seq<ArcAttrV>) -> Seq<CanvasOpV>
    decreases attrs.len(),
{
    if attrs.len() == 0 {
        Seq::empty()
    } else {
        arc_style_ops(attrs.drop_last()) + arc_style_op(attrs.last())
    }
}

/// The paint operation of one arc attribute.
pub open spec fn arc_paint_op(attr: ArcAttrV) -> Seq<CanvasOpV> {
    match attr {
        ArcAttrV::Stroke(color) => seq![CanvasOpV::Stroke],
        ArcAttrV::Fill(color) => seq![CanvasOpV::Fill],
        ArcAttrV::Dash(dash) => Seq::empty(),
        ArcAttrV::Angle(angle) => Seq::empty(),
        ArcAttrV::Forward(dir) => Seq::empty(),
        ArcAttrV::Sector => Seq::empty(),
    }
}

/// The paint pass over an arc's attribute list, in attribute order.
pub open spec fn arc_paint_ops(attrs: Seq<ArcAttrV>) -> Seq<CanvasOpV>
    decreases attrs.len(),
{
    if attrs.len() == 0 {
        Seq::empty()
    } else {
        arc_paint_ops(attrs.drop_last()) + arc_paint_op(attrs.last())
    }
}

/// The sweep of the arc: the last `Angle` attribute, if any.
pub open spec fn last_sweep(attrs: Seq<ArcAttrV>) -> Option<u32>
    decreases attrs.len(),
{
    if attrs.len() == 0 {
        None
    } else {
        match attrs.last() {
            ArcAttrV::Angle(angle) => Some(angle),
            _ => last_sweep(attrs.drop_last()),
        }
    }
}

/// The start of the arc: the last `Forward` attribute's direction, if any;
/// otherwise centered on half the sweep.
pub open spec fn arc_start_of(attrs: Seq<ArcAttrV>) -> ArcStart
    decreases attrs.len(),
{
    if attrs.len() == 0 {
        ArcStart::Centered
    } else {
        match attrs.last() {
            ArcAttrV::Forward(dir) => ArcStart::Forward(dir),
            _ => arc_start_of(attrs.drop_last()),
        }
    }
}

/// Whether any attribute asks for a pie sector.
pub open spec fn has_sector(attrs: Seq<ArcAttrV>) -> bool {
    exists|i: int| 0 <= i < attrs.len() && attrs[i] is Sector
}

/// The operations of one `draw_arc` call: styles in attribute order, the
/// arc path (bracketed by moves to the center when a sector is drawn),
/// then strokes and fills in attribute order.
pub open spec fn arc_trace(center: Vec2, radius: u32, attrs: Seq<ArcAttrV>) -> Seq<CanvasOpV> {
    let sector_move: Seq<CanvasOpV> = if has_sector(attrs) {
        seq![CanvasOpV::MoveTo(center)]
    } else {
        Seq::empty()
    };
    seq![CanvasOpV::Save] + arc_style_ops(attrs) + seq![CanvasOpV::BeginPath] + sector_move
        + seq![
        CanvasOpV::ArcPath {
            center,
            radius,
            sweep: last_sweep(attrs),
            start: arc_start_of(attrs),
        },
    ] + sector_move + arc_paint_ops(attrs) + seq![CanvasOpV::Restore]
}

/// An element-for-element copy of a dash pattern.
fn copy_dash(v: &Vec<u32>) -> (out: Vec<u32>)
    ensures
        out@ == v@,
{
    let mut out: Vec<u32> = Vec::new();
    let mut i: usize = 0;
    while i < v.len()
        invariant
            0 <= i as int <= v@.len(),
            out@ == v@.subrange(0, i as int),
        decreases v@.len() - i as int,
    {
        out.push(v[i]);
        proof {
            assert(out@ =~= v@.subrange(0, i as int + 1));
        }
        i += 1;
    }
    proof {
        assert(v@.subrange(0, v@.len() as int) =~= v@);
    }
    out
}

/// An element-for-element copy of a transform list.
fn clone_transforms(v: &Vec<Transform>) -> (out: Vec<Transform>)
    ensures
        out@ == v@,
{
    let mut out: Vec<Transform> = Vec::new();
    let mut i: usize = 0;
    while i < v.len()
        invariant
            0 <= i as int <= v@.len(),
            out@ == v@.subrange(0, i as int),
        decreases v@.len() - i as int,
    {
        out.push(v[i]);
        proof {
            assert(out@ =~= v@.subrange(0, i as int + 1));
        }
        i += 1;
    }
    proof {
        assert(v@.subrange(0, v@.len() as int) =~= v@);
    }
    out
}

} // verus!
