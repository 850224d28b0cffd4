use vstd::prelude::*;

use crate::config::{AxisConfig, GizmoDirection, GizmoMode, GizmoModes, GizmoVisibility};

verus! {

/// Whether a subgizmo acts along a single axis or within a plane.
#[derive(Debug, Clone, Copy, PartialEq, Eq, Structural, Hash)]
pub enum TransformKind {
    Axis,
    Plane,
}

/// The static parameters of one subgizmo: which primitive it is and what it acts on.
#[derive(Debug, Clone, Copy, PartialEq, Eq, Structural, Hash)]
pub enum SubGizmoKind {
    /// A rotation arc about one axis, or about the view axis.
    Rotation(GizmoDirection),
    /// Free rotation by a virtual trackball.
    Arcball,
    /// Translation along an axis or within a plane.
    Translation(GizmoDirection, TransformKind),
    /// Scaling along an axis or within a plane.
    Scale(GizmoDirection, TransformKind),
}

/// `k` alone when `b` holds, nothing otherwise.
pub open spec fn present_if(b: bool, k: SubGizmoKind) -> Seq<SubGizmoKind> {
    if b {
        seq![k]
    } else {
        Seq::empty()
    }
}

/// The rotation subgizmos: one arc per enabled direction, then the arcball.
pub open spec fn rotation_layout(vis: GizmoVisibility) -> Seq<SubGizmoKind> {
    let arc = vis.rotation_arc;
    present_if(arc.x, SubGizmoKind::Rotation(GizmoDirection::X)) + present_if(
        arc.y,
        SubGizmoKind::Rotation(GizmoDirection::Y),
    ) + present_if(arc.z, SubGizmoKind::Rotation(GizmoDirection::Z)) + present_if(
        arc.view,
        SubGizmoKind::Rotation(GizmoDirection::View),
    ) + present_if(vis.rotation_arc_ball, SubGizmoKind::Arcball)
}

/// The translation arrows along enabled axes, then the view plane.
pub open spec fn translation_arrows(arrow: AxisConfig) -> Seq<SubGizmoKind> {
    present_if(arrow.x, SubGizmoKind::Translation(GizmoDirection::X, TransformKind::Axis)) + present_if(
        arrow.y,
        SubGizmoKind::Translation(GizmoDirection::Y, TransformKind::Axis),
    ) + present_if(arrow.z, SubGizmoKind::Translation(GizmoDirection::Z, TransformKind::Axis)) + present_if(
        arrow.view,
        SubGizmoKind::Translation(GizmoDirection::View, TransformKind::Plane),
    )
}

/// The X, Y and Z translation planes enabled by `planes`.
pub open spec fn translation_planes(planes: AxisConfig) -> Seq<SubGizmoKind> {
    present_if(planes.x, SubGizmoKind::Translation(GizmoDirection::X, TransformKind::Plane)) + present_if(
        planes.y,
        SubGizmoKind::Translation(GizmoDirection::Y, TransformKind::Plane),
    ) + present_if(planes.z, SubGizmoKind::Translation(GizmoDirection::Z, TransformKind::Plane))
}

/// The translation subgizmos: axis arrows and the view plane, then the
/// X, Y and Z planes unless scaling is enabled too.
pub open spec fn translation_layout(modes: GizmoModes, vis: GizmoVisibility) -> Seq<SubGizmoKind> {
    translation_arrows(vis.translation_arrow) + if modes.scale {
        Seq::empty()
    } else {
        translation_planes(vis.translation_plane)
    }
}

/// The scale arrows along enabled axes, then the uniform (view) handle
/// when `uniform` holds.
pub open spec fn scale_arrows(arrow: AxisConfig, uniform: bool) -> Seq<SubGizmoKind> {
    present_if(arrow.x, SubGizmoKind::Scale(GizmoDirection::X, TransformKind::Axis)) + present_if(
        arrow.y,
        SubGizmoKind::Scale(GizmoDirection::Y, TransformKind::Axis),
    ) + present_if(arrow.z, SubGizmoKind::Scale(GizmoDirection::Z, TransformKind::Axis)) + present_if(
        uniform,
        SubGizmoKind::Scale(GizmoDirection::View, TransformKind::Plane),
    )
}

/// The X, Y and Z scale planes enabled by `planes`.
pub open spec fn scale_planes(planes: AxisConfig) -> Seq<SubGizmoKind> {
    present_if(planes.x, SubGizmoKind::Scale(GizmoDirection::X, TransformKind::Plane)) + present_if(
        planes.y,
        SubGizmoKind::Scale(GizmoDirection::Y, TransformKind::Plane),
    ) + present_if(planes.z, SubGizmoKind::Scale(GizmoDirection::Z, TransformKind::Plane))
}

/// The scale subgizmos: axis arrows, the uniform (view) handle when scaling
/// is the only mode, then the X, Y and Z planes unless translation is
/// enabled too. The planes follow the translation-plane flags.
pub open spec fn scale_layout(modes: GizmoModes, vis: GizmoVisibility) -> Seq<SubGizmoKind> {
    scale_arrows(vis.scaling_arrow, modes@ == set![GizmoMode::Scale] && vis.scaling_plane.view)
        + if modes.translate {
        Seq::empty()
    } else {
        scale_planes(vis.translation_plane)
    }
}

/// The full subgizmo collection, mode by mode in iteration order.
pub open spec fn layout(modes: GizmoModes, vis: GizmoVisibility) -> Seq<SubGizmoKind> {
    (if modes.rotate {
        rotation_layout(vis)
    } else {
        Seq::empty()
    }) + (if modes.translate {
        translation_layout(modes, vis)
    } else {
        Seq::empty()
    }) + (if modes.scale {
        scale_layout(modes, vis)
    } else {
        Seq::empty()
    })
}

fn push_when(list: &mut Vec<SubGizmoKind>, b: bool, k: SubGizmoKind)
    ensures
        final(list)@ == old(list)@ + present_if(b, k),
{
    if b {
        list.push(k);
    }
    proof {
        assert(final(list)@ =~= old(list)@ + present_if(b, k));
    }
}

/// Appends the rotation subgizmos.
pub fn add_rotation(list: &mut Vec<SubGizmoKind>, vis: &GizmoVisibility)
    ensures
        final(list)@ == old(list)@ + rotation_layout(*vis),
{
    let arc = vis.rotation_arc;
    push_when(list, arc.is_active(GizmoDirection::X), SubGizmoKind::Rotation(GizmoDirection::X));
    push_when(list, arc.is_active(GizmoDirection::Y), SubGizmoKind::Rotation(GizmoDirection::Y));
    push_when(list, arc.is_active(GizmoDirection::Z), SubGizmoKind::Rotation(GizmoDirection::Z));
    push_when(
        list,
        arc.is_active(GizmoDirection::View),
        SubGizmoKind::Rotation(GizmoDirection::View),
    );
    push_when(list, vis.rotation_arc_ball, SubGizmoKind::Arcball);
    proof {
        assert(final(list)@ =~= old(list)@ + rotation_layout(*vis));
    }
}

fn add_translation_arrows(list: &mut Vec<SubGizmoKind>, arrow: &AxisConfig)
    ensures
        final(list)@ == old(list)@ + translation_arrows(*arrow),
{
    push_when(
        list,
        arrow.is_active(GizmoDirection::X),
        SubGizmoKind::Translation(GizmoDirection::X, TransformKind::Axis),
    );
    push_when(
        list,
        arrow.is_active(GizmoDirection::Y),
        SubGizmoKind::Translation(GizmoDirection::Y, TransformKind::Axis),
    );
    push_when(
        list,
        arrow.is_active(GizmoDirection::Z),
        SubGizmoKind::Translation(GizmoDirection::Z, TransformKind::Axis),
    );
    push_when(
        list,
        arrow.is_active(GizmoDirection::View),
        SubGizmoKind::Translation(GizmoDirection::View, TransformKind::Plane),
    );
    proof {
        assert(final(list)@ =~= old(list)@ + translation_arrows(*arrow));
    }
}

fn add_translation_planes(list: &mut Vec<SubGizmoKind>, planes: &AxisConfig)
    ensures
        final(list)@ == old(list)@ + translation_planes(*planes),
{
    push_when(
        list,
        planes.is_active(GizmoDirection::X),
        SubGizmoKind::Translation(GizmoDirection::X, TransformKind::Plane),
    );
    push_when(
        list,
        planes.is_active(GizmoDirection::Y),
        SubGizmoKind::Translation(GizmoDirection::Y, TransformKind::Plane),
    );
    push_when(
        list,
        planes.is_active(GizmoDirection::Z),
        SubGizmoKind::Translation(GizmoDirection::Z, TransformKind::Plane),
    );
    proof {
        assert(final(list)@ =~= old(list)@ + translation_planes(*planes));
    }
}

/// Appends the translation subgizmos.
pub fn add_translation(list: &mut Vec<SubGizmoKind>, modes: &GizmoModes, vis: &GizmoVisibility)
    ensures
        final(list)@ == old(list)@ + translation_layout(*modes, *vis),
{
    add_translation_arrows(list, &vis.translation_arrow);
    // Plane subgizmos are not added when both translation and scaling are enabled.
    if !modes.contains(GizmoMode::Scale) {
        add_translation_planes(list, &vis.translation_plane);
    }
    proof {
        assert(final(list)@ =~= old(list)@ + translation_layout(*modes, *vis));
    }
}

fn add_scale_arrows(list: &mut Vec<SubGizmoKind>, arrow: &AxisConfig, uniform: bool)
    ensures
        final(list)@ == old(list)@ + scale_arrows(*arrow, uniform),
{
    push_when(
        list,
        arrow.is_active(GizmoDirection::X),
        SubGizmoKind::Scale(GizmoDirection::X, TransformKind::Axis),
    );
    push_when(
        list,
        arrow.is_active(GizmoDirection::Y),
        SubGizmoKind::Scale(GizmoDirection::Y, TransformKind::Axis),
    );
    push_when(
        list,
        arrow.is_active(GizmoDirection::Z),
        SubGizmoKind::Scale(GizmoDirection::Z, TransformKind::Axis),
    );
    push_when(list, uniform, SubGizmoKind::Scale(GizmoDirection::View, TransformKind::Plane));
    proof {
        assert(final(list)@ =~= old(list)@ + scale_arrows(*arrow, uniform));
    }
}

fn add_scale_planes(list: &mut Vec<SubGizmoKind>, planes: &AxisConfig)
    ensures
        final(list)@ == old(list)@ + scale_planes(*planes),
{
    push_when(
        list,
        planes.is_active(GizmoDirection::X),
        SubGizmoKind::Scale(GizmoDirection::X, TransformKind::Plane),
    );
    push_when(
        list,
        planes.is_active(GizmoDirection::Y),
        SubGizmoKind::Scale(GizmoDirection::Y, TransformKind::Plane),
    );
    push_when(
        list,
        planes.is_active(GizmoDirection::Z),
        SubGizmoKind::Scale(GizmoDirection::Z, TransformKind::Plane),
    );
    proof {
        assert(final(list)@ =~= old(list)@ + scale_planes(*planes));
    }
}

/// Appends the scale subgizmos.
pub fn add_scale(list: &mut Vec<SubGizmoKind>, modes: &GizmoModes, vis: &GizmoVisibility)
    ensures
        final(list)@ == old(list)@ + scale_layout(*modes, *vis),
{
    // The uniform scaling subgizmo would overlap with rotation or
    // translation subgizmos, so it is only added when scaling is alone.
    let uniform = modes.contains(GizmoMode::Scale) && modes.len() == 1 && vis.scaling_plane.view;
    proof {
        let alone = modes@ == set![GizmoMode::Scale];
        if alone {
            assert(modes@.contains(GizmoMode::Scale));
            assert(!modes@.contains(GizmoMode::Rotate));
            assert(!modes@.contains(GizmoMode::Translate));
        }
        if modes.scale && modes.spec_len() == 1 {
            assert(modes@ =~= set![GizmoMode::Scale]);
        }
    }
    add_scale_arrows(list, &vis.scaling_arrow, uniform);
    // Plane subgizmos are not added when both translation and scaling are enabled.
    if !modes.contains(GizmoMode::Translate) {
        add_scale_planes(list, &vis.translation_plane);
    }
    proof {
        assert(final(list)@ =~= old(list)@ + scale_layout(*modes, *vis));
    }
}

/// Builds the subgizmo collection for the given modes and visibility flags.
pub fn build_subgizmos(modes: &GizmoModes, vis: &GizmoVisibility) -> (r: Vec<SubGizmoKind>)
    ensures
        r@ == layout(*modes, *vis),
{
    let mut r: Vec<SubGizmoKind> = Vec::new();
    if modes.contains(GizmoMode::Rotate) {
        add_rotation(&mut r, vis);
    }
    if modes.contains(GizmoMode::Translate) {
        add_translation(&mut r, modes, vis);
    }
    if modes.contains(GizmoMode::Scale) {
        add_scale(&mut r, modes, vis);
    }
    proof {
        assert(r@ =~= layout(*modes, *vis));
    }
    r
}

/// Whether a change of configuration invalidates the subgizmo collection.
pub fn needs_rebuild(
    modes: &GizmoModes,
    vis: &GizmoVisibility,
    new_modes: &GizmoModes,
    new_vis: &GizmoVisibility,
) -> (r: bool)
    ensures
        r == (*modes != *new_modes || *vis != *new_vis),
{
    *modes != *new_modes || *vis != *new_vis
}

/// Neither a plane translation off the view axis nor a scale plane.
pub open spec fn no_overlapping_plane(k: SubGizmoKind) -> bool {
    match k {
        SubGizmoKind::Translation(d, t) => t == TransformKind::Plane ==> d == GizmoDirection::View,
        SubGizmoKind::Scale(_, t) => t == TransformKind::Axis,
        _ => true,
    }
}

/// No element of `s` is a plane that would overlap another family's.
pub open spec fn none_overlapping(s: Seq<SubGizmoKind>) -> bool {
    forall|j: int| 0 <= j < s.len() ==> no_overlapping_plane(#[trigger] s[j])
}

proof fn lemma_none_overlapping_concat(a: Seq<SubGizmoKind>, b: Seq<SubGizmoKind>)
    requires
        none_overlapping(a),
        none_overlapping(b),
    ensures
        none_overlapping(a + b),
{
    assert forall|j: int| 0 <= j < (a + b).len() implies no_overlapping_plane(#[trigger] (a + b)[j]) by {
        if j >= a.len() {
            assert((a + b)[j] == b[j - a.len()]);
        } else {
            assert((a + b)[j] == a[j]);
        }
    }
}

proof fn lemma_none_overlapping_when(b: bool, k: SubGizmoKind)
    requires
        no_overlapping_plane(k),
    ensures
        none_overlapping(present_if(b, k)),
{
}

proof fn lemma_none_overlapping4(
    a: Seq<SubGizmoKind>,
    b: Seq<SubGizmoKind>,
    c: Seq<SubGizmoKind>,
    d: Seq<SubGizmoKind>,
)
    requires
        none_overlapping(a),
        none_overlapping(b),
        none_overlapping(c),
        none_overlapping(d),
    ensures
        none_overlapping(a + b + c + d),
{
    lemma_none_overlapping_concat(a, b);
    lemma_none_overlapping_concat(a + b, c);
    lemma_none_overlapping_concat(a + b + c, d);
}

proof fn lemma_rotation_none_overlapping(vis: GizmoVisibility)
    ensures
        none_overlapping(rotation_layout(vis)),
{
    let arc = vis.rotation_arc;
    let a = present_if(arc.x, SubGizmoKind::Rotation(GizmoDirection::X));
    let b = present_if(arc.y, SubGizmoKind::Rotation(GizmoDirection::Y));
    let c = present_if(arc.z, SubGizmoKind::Rotation(GizmoDirection::Z));
    let d = present_if(arc.view, SubGizmoKind::Rotation(GizmoDirection::View));
    let e = present_if(vis.rotation_arc_ball, SubGizmoKind::Arcball);
    lemma_none_overlapping_when(arc.x, SubGizmoKind::Rotation(GizmoDirection::X));
    lemma_none_overlapping_when(arc.y, SubGizmoKind::Rotation(GizmoDirection::Y));
    lemma_none_overlapping_when(arc.z, SubGizmoKind::Rotation(GizmoDirection::Z));
    lemma_none_overlapping_when(arc.view, SubGizmoKind::Rotation(GizmoDirection::View));
    lemma_none_overlapping_when(vis.rotation_arc_ball, SubGizmoKind::Arcball);
    lemma_none_overlapping4(a, b, c, d);
    lemma_none_overlapping_concat(a + b + c + d, e);
}

proof fn lemma_translation_arrows_none_overlapping(arrow: AxisConfig)
    ensures
        none_overlapping(translation_arrows(arrow)),
{
    let a = present_if(arrow.x, SubGizmoKind::Translation(GizmoDirection::X, TransformKind::Axis));
    let b = present_if(arrow.y, SubGizmoKind::Translation(GizmoDirection::Y, TransformKind::Axis));
    let c = present_if(arrow.z, SubGizmoKind::Translation(GizmoDirection::Z, TransformKind::Axis));
    let d = present_if(arrow.view, SubGizmoKind::Translation(GizmoDirection::View, TransformKind::Plane));
    lemma_none_overlapping_when(arrow.x, SubGizmoKind::Translation(GizmoDirection::X, TransformKind::Axis));
    lemma_none_overlapping_when(arrow.y, SubGizmoKind::Translation(GizmoDirection::Y, TransformKind::Axis));
    lemma_none_overlapping_when(arrow.z, SubGizmoKind::Translation(GizmoDirection::Z, TransformKind::Axis));
    lemma_none_overlapping_when(
        arrow.view,
        SubGizmoKind::Translation(GizmoDirection::View, TransformKind::Plane),
    );
    lemma_none_overlapping4(a, b, c, d);
}

proof fn lemma_scale_arrows_none_overlapping(arrow: AxisConfig)
    ensures
        none_overlapping(scale_arrows(arrow, false)),
{
    let a = present_if(arrow.x, SubGizmoKind::Scale(GizmoDirection::X, TransformKind::Axis));
    let b = present_if(arrow.y, SubGizmoKind::Scale(GizmoDirection::Y, TransformKind::Axis));
    let c = present_if(arrow.z, SubGizmoKind::Scale(GizmoDirection::Z, TransformKind::Axis));
    let d = present_if(false, SubGizmoKind::Scale(GizmoDirection::View, TransformKind::Plane));
    lemma_none_overlapping_when(arrow.x, SubGizmoKind::Scale(GizmoDirection::X, TransformKind::Axis));
    lemma_none_overlapping_when(arrow.y, SubGizmoKind::Scale(GizmoDirection::Y, TransformKind::Axis));
    lemma_none_overlapping_when(arrow.z, SubGizmoKind::Scale(GizmoDirection::Z, TransformKind::Axis));
    lemma_none_overlapping4(a, b, c, d);
}

/// With Translate and Scale both enabled, no X, Y or Z plane subgizmo of
/// either family is built (they would overlap), nor the uniform scale handle.
pub proof fn lemma_no_planes_with_translate_and_scale(modes: GizmoModes, vis: GizmoVisibility)
    requires
        modes.translate,
        modes.scale,
    ensures
        none_overlapping(layout(modes, vis)),
{
    let r = if modes.rotate { rotation_layout(vis) } else { Seq::empty() };
    lemma_rotation_none_overlapping(vis);
    lemma_translation_arrows_none_overlapping(vis.translation_arrow);
    lemma_scale_arrows_none_overlapping(vis.scaling_arrow);
    let t = translation_arrows(vis.translation_arrow);
    let s = scale_arrows(vis.scaling_arrow, false);
    assert(translation_layout(modes, vis) =~= t);
    assert(modes@.contains(GizmoMode::Translate));
    assert(modes@ != set![GizmoMode::Scale]);
    assert(scale_layout(modes, vis) =~= s);
    lemma_none_overlapping_concat(r, t);
    lemma_none_overlapping_concat(r + t, s);
}

proof fn lemma_contains_concat(a: Seq<SubGizmoKind>, b: Seq<SubGizmoKind>, x: SubGizmoKind)
    requires
        (a + b).contains(x),
    ensures
        a.contains(x) || b.contains(x),
{
    let j = choose|j: int| 0 <= j < (a + b).len() && (a + b)[j] == x;
    if j < a.len() {
        assert(a[j] == x);
    } else {
        assert(b[j - a.len()] == x);
    }
}

proof fn lemma_contains_when(b: bool, k: SubGizmoKind, x: SubGizmoKind)
    requires
        present_if(b, k).contains(x),
    ensures
        b && x == k,
{
}

proof fn lemma_contains4(
    a: Seq<SubGizmoKind>,
    b: Seq<SubGizmoKind>,
    c: Seq<SubGizmoKind>,
    d: Seq<SubGizmoKind>,
    x: SubGizmoKind,
)
    requires
        (a + b + c + d).contains(x),
    ensures
        a.contains(x) || b.contains(x) || c.contains(x) || d.contains(x),
{
    lemma_contains_concat(a + b + c, d, x);
    if (a + b + c).contains(x) {
        lemma_contains_concat(a + b, c, x);
        if (a + b).contains(x) {
            lemma_contains_concat(a, b, x);
        }
    }
}

proof fn lemma_contains3(a: Seq<SubGizmoKind>, b: Seq<SubGizmoKind>, c: Seq<SubGizmoKind>, x: SubGizmoKind)
    requires
        (a + b + c).contains(x),
    ensures
        a.contains(x) || b.contains(x) || c.contains(x),
{
    lemma_contains_concat(a + b, c, x);
    if (a + b).contains(x) {
        lemma_contains_concat(a, b, x);
    }
}

/// Which part of the collection built `x`.
proof fn lemma_layout_parts(modes: GizmoModes, vis: GizmoVisibility, x: SubGizmoKind)
    requires
        layout(modes, vis).contains(x),
    ensures
        (modes.rotate && rotation_layout(vis).contains(x)) || (modes.translate
            && translation_layout(modes, vis).contains(x)) || (modes.scale && scale_layout(
            modes,
            vis,
        ).contains(x)),
{
    let r = if modes.rotate { rotation_layout(vis) } else { Seq::empty() };
    let t = if modes.translate { translation_layout(modes, vis) } else { Seq::empty() };
    let s = if modes.scale { scale_layout(modes, vis) } else { Seq::empty() };
    lemma_contains_concat(r + t, s, x);
    if (r + t).contains(x) {
        lemma_contains_concat(r, t, x);
    }
}

proof fn lemma_rotation_members(vis: GizmoVisibility, x: SubGizmoKind)
    requires
        rotation_layout(vis).contains(x),
    ensures
        x is Rotation || (x == SubGizmoKind::Arcball && vis.rotation_arc_ball),
{
    let arc = vis.rotation_arc;
    let a = present_if(arc.x, SubGizmoKind::Rotation(GizmoDirection::X));
    let b = present_if(arc.y, SubGizmoKind::Rotation(GizmoDirection::Y));
    let c = present_if(arc.z, SubGizmoKind::Rotation(GizmoDirection::Z));
    let d = present_if(arc.view, SubGizmoKind::Rotation(GizmoDirection::View));
    let e = present_if(vis.rotation_arc_ball, SubGizmoKind::Arcball);
    lemma_contains_concat(a + b + c + d, e, x);
    if (a + b + c + d).contains(x) {
        lemma_contains4(a, b, c, d, x);
    }
}

proof fn lemma_translation_arrows_members(ar: AxisConfig, x: SubGizmoKind)
    requires
        translation_arrows(ar).contains(x),
    ensures
        x is Translation,
{
    lemma_contains4(
        present_if(ar.x, SubGizmoKind::Translation(GizmoDirection::X, TransformKind::Axis)),
        present_if(ar.y, SubGizmoKind::Translation(GizmoDirection::Y, TransformKind::Axis)),
        present_if(ar.z, SubGizmoKind::Translation(GizmoDirection::Z, TransformKind::Axis)),
        present_if(ar.view, SubGizmoKind::Translation(GizmoDirection::View, TransformKind::Plane)),
        x,
    );
}

proof fn lemma_translation_planes_members(pl: AxisConfig, x: SubGizmoKind)
    requires
        translation_planes(pl).contains(x),
    ensures
        x is Translation,
{
    lemma_contains3(
        present_if(pl.x, SubGizmoKind::Translation(GizmoDirection::X, TransformKind::Plane)),
        present_if(pl.y, SubGizmoKind::Translation(GizmoDirection::Y, TransformKind::Plane)),
        present_if(pl.z, SubGizmoKind::Translation(GizmoDirection::Z, TransformKind::Plane)),
        x,
    );
}

proof fn lemma_scale_arrows_members(sa: AxisConfig, uniform: bool, x: SubGizmoKind)
    requires
        scale_arrows(sa, uniform).contains(x),
    ensures
        x is Scale,
        x == SubGizmoKind::Scale(GizmoDirection::View, TransformKind::Plane) ==> uniform,
{
    lemma_contains4(
        present_if(sa.x, SubGizmoKind::Scale(GizmoDirection::X, TransformKind::Axis)),
        present_if(sa.y, SubGizmoKind::Scale(GizmoDirection::Y, TransformKind::Axis)),
        present_if(sa.z, SubGizmoKind::Scale(GizmoDirection::Z, TransformKind::Axis)),
        present_if(uniform, SubGizmoKind::Scale(GizmoDirection::View, TransformKind::Plane)),
        x,
    );
}

proof fn lemma_scale_planes_members(pl: AxisConfig, x: SubGizmoKind)
    requires
        scale_planes(pl).contains(x),
    ensures
        x is Scale,
        x != SubGizmoKind::Scale(GizmoDirection::View, TransformKind::Plane),
{
    lemma_contains3(
        present_if(pl.x, SubGizmoKind::Scale(GizmoDirection::X, TransformKind::Plane)),
        present_if(pl.y, SubGizmoKind::Scale(GizmoDirection::Y, TransformKind::Plane)),
        present_if(pl.z, SubGizmoKind::Scale(GizmoDirection::Z, TransformKind::Plane)),
        x,
    );
}

proof fn lemma_translation_members(modes: GizmoModes, vis: GizmoVisibility, x: SubGizmoKind)
    requires
        translation_layout(modes, vis).contains(x),
    ensures
        x is Translation,
{
    let t = translation_arrows(vis.translation_arrow);
    let p = if modes.scale { Seq::empty() } else { translation_planes(vis.translation_plane) };
    lemma_contains_concat(t, p, x);
    if t.contains(x) {
        lemma_translation_arrows_members(vis.translation_arrow, x);
    } else if !modes.scale {
        lemma_translation_planes_members(vis.translation_plane, x);
    }
}

proof fn lemma_scale_members(modes: GizmoModes, vis: GizmoVisibility, x: SubGizmoKind)
    requires
        scale_layout(modes, vis).contains(x),
    ensures
        x is Scale,
        x == SubGizmoKind::Scale(GizmoDirection::View, TransformKind::Plane) ==> modes@ == set![
            GizmoMode::Scale,
        ],
{
    let uniform = modes@ == set![GizmoMode::Scale] && vis.scaling_plane.view;
    let s = scale_arrows(vis.scaling_arrow, uniform);
    let p = if modes.translate { Seq::empty() } else { scale_planes(vis.translation_plane) };
    lemma_contains_concat(s, p, x);
    if s.contains(x) {
        lemma_scale_arrows_members(vis.scaling_arrow, uniform, x);
    } else if !modes.translate {
        lemma_scale_planes_members(vis.translation_plane, x);
    }
}

/// The uniform scale handle is built only when Scale is the only mode.
pub proof fn lemma_uniform_scale_only_alone(modes: GizmoModes, vis: GizmoVisibility)
    requires
        layout(modes, vis).contains(SubGizmoKind::Scale(GizmoDirection::View, TransformKind::Plane)),
    ensures
        modes@ == set![GizmoMode::Scale],
{
    let u = SubGizmoKind::Scale(GizmoDirection::View, TransformKind::Plane);
    lemma_layout_parts(modes, vis, u);
    if modes.rotate && rotation_layout(vis).contains(u) {
        lemma_rotation_members(vis, u);
    } else if modes.translate && translation_layout(modes, vis).contains(u) {
        lemma_translation_members(modes, vis, u);
    } else {
        lemma_scale_members(modes, vis, u);
    }
}

/// The arcball is built only in rotation mode with its flag set.
pub proof fn lemma_arcball_only_when_flagged(modes: GizmoModes, vis: GizmoVisibility)
    requires
        layout(modes, vis).contains(SubGizmoKind::Arcball),
    ensures
        modes.rotate,
        vis.rotation_arc_ball,
{
    let x = SubGizmoKind::Arcball;
    lemma_layout_parts(modes, vis, x);
    if modes.rotate && rotation_layout(vis).contains(x) {
        lemma_rotation_members(vis, x);
    } else if modes.translate && translation_layout(modes, vis).contains(x) {
        lemma_translation_members(modes, vis, x);
    } else {
        lemma_scale_members(modes, vis, x);
    }
}

} // verus!
