use vstd::prelude::*;

verus! {

/// Operation mode of a gizmo.
#[derive(Debug, Clone, Copy, PartialEq, Eq, Structural, Hash)]
pub enum GizmoMode {
    Rotate,
    Translate,
    Scale,
}

/// The point in space around which all rotations are centered.
#[derive(Debug, Clone, Copy, PartialEq, Eq, Structural)]
pub enum TransformPivotPoint {
    /// Pivot around the median point of targets
    MedianPoint,
    /// Pivot around each target's own origin
    IndividualOrigins,
}

impl Default for TransformPivotPoint {
    fn default() -> (r: TransformPivotPoint)
        ensures
            r == TransformPivotPoint::MedianPoint,
    {
        TransformPivotPoint::MedianPoint
    }
}

/// Orientation of a gizmo.
#[derive(Debug, Clone, Copy, PartialEq, Eq, Structural)]
pub enum GizmoOrientation {
    /// Transformation axes are aligned to world space.
    Global,
    /// Transformation axes are aligned to the last target's orientation.
    Local,
}

impl Default for GizmoOrientation {
    fn default() -> (r: GizmoOrientation)
        ensures
            r == GizmoOrientation::Global,
    {
        GizmoOrientation::Global
    }
}

/// One of the four directions a subgizmo can act along.
#[derive(Debug, Clone, Copy, PartialEq, Eq, Structural, Hash)]
pub enum GizmoDirection {
    /// Gizmo points in the X-direction
    X,
    /// Gizmo points in the Y-direction
    Y,
    /// Gizmo points in the Z-direction
    Z,
    /// Gizmo points in the view direction
    View,
}

/// Per-direction enable flags for one family of subgizmos.
#[derive(Debug, Clone, Copy, PartialEq, Eq, Structural)]
pub struct AxisConfig {
    pub x: bool,
    pub y: bool,
    pub z: bool,
    pub view: bool,
}

impl Default for AxisConfig {
    fn default() -> (r: AxisConfig)
        ensures
            r == (AxisConfig { x: true, y: true, z: true, view: true }),
    {
        AxisConfig { x: true, y: true, z: true, view: true }
    }
}

impl AxisConfig {
    pub open spec fn spec_is_active(self, direction: GizmoDirection) -> bool {
        match direction {
            GizmoDirection::X => self.x,
            GizmoDirection::Y => self.y,
            GizmoDirection::Z => self.z,
            GizmoDirection::View => self.view,
        }
    }

    /// Whether subgizmos along `direction` are enabled.
    pub fn is_active(&self, direction: GizmoDirection) -> (r: bool)
        ensures
            r == self.spec_is_active(direction),
    {
        match direction {
            GizmoDirection::X => self.x,
            GizmoDirection::Y => self.y,
            GizmoDirection::Z => self.z,
            GizmoDirection::View => self.view,
        }
    }
}

/// Which subgizmo primitives are shown, per family and direction.
#[derive(Debug, Clone, Copy, PartialEq, Eq, Structural)]
pub struct GizmoVisibility {
    // translation helper
    pub translation_arrow: AxisConfig,
    pub translation_plane: AxisConfig,
    // scaling helper
    pub scaling_arrow: AxisConfig,
    pub scaling_plane: AxisConfig,
    // rotation helper
    pub rotation_arc: AxisConfig,
    pub rotation_arc_ball: bool,
}

impl Default for GizmoVisibility {
    fn default() -> (r: GizmoVisibility)
        ensures
            r.translation_arrow == (AxisConfig { x: true, y: true, z: true, view: true }),
            r.translation_plane == (AxisConfig { x: true, y: true, z: true, view: true }),
            r.scaling_arrow == (AxisConfig { x: true, y: true, z: true, view: true }),
            r.scaling_plane == (AxisConfig { x: true, y: true, z: true, view: true }),
            r.rotation_arc == (AxisConfig { x: true, y: true, z: true, view: true }),
            r.rotation_arc_ball,
    {
        GizmoVisibility {
            translation_arrow: AxisConfig::default(),
            translation_plane: AxisConfig::default(),
            scaling_arrow: AxisConfig::default(),
            scaling_plane: AxisConfig::default(),
            rotation_arc: AxisConfig::default(),
            rotation_arc_ball: true,
        }
    }
}

/// The set of enabled operation modes.
///
/// Iteration order is always Rotate, Translate, Scale.
#[derive(Debug, Clone, Copy, PartialEq, Eq, Structural)]
pub struct GizmoModes {
    pub rotate: bool,
    pub translate: bool,
    pub scale: bool,
}

impl Default for GizmoModes {
    fn default() -> (r: GizmoModes)
        ensures
            r@ == Set::<GizmoMode>::empty(),
    {
        let r = GizmoModes { rotate: false, translate: false, scale: false };
        proof {
            assert(r@ =~= Set::<GizmoMode>::empty());
        }
        r
    }
}

impl View for GizmoModes {
    type V = Set<GizmoMode>;

    open spec fn view(&self) -> Set<GizmoMode> {
        Set::new(|m: GizmoMode| self.spec_contains(m))
    }
}

impl GizmoModes {
    pub open spec fn spec_contains(self, mode: GizmoMode) -> bool {
        match mode {
            GizmoMode::Rotate => self.rotate,
            GizmoMode::Translate => self.translate,
            GizmoMode::Scale => self.scale,
        }
    }

    pub open spec fn spec_len(self) -> nat {
        (if self.rotate { 1nat } else { 0nat }) + (if self.translate { 1nat } else { 0nat }) + (
        if self.scale {
            1nat
        } else {
            0nat
        })
    }

    /// The enabled modes, in iteration order.
    pub open spec fn spec_seq(self) -> Seq<GizmoMode> {
        (if self.rotate { seq![GizmoMode::Rotate] } else { Seq::empty() }) + (if self.translate {
            seq![GizmoMode::Translate]
        } else {
            Seq::empty()
        }) + (if self.scale { seq![GizmoMode::Scale] } else { Seq::empty() })
    }

    /// The set holding only `mode`.
    pub fn only(mode: GizmoMode) -> (r: GizmoModes)
        ensures
            r@ == set![mode],
    {
        let mut r = GizmoModes { rotate: false, translate: false, scale: false };
        r.insert(mode);
        proof {
            assert(r@ =~= set![mode]);
        }
        r
    }

    /// Adds `mode` to the set.
    pub fn insert(&mut self, mode: GizmoMode)
        ensures
            final(self)@ == old(self)@.insert(mode),
    {
        match mode {
            GizmoMode::Rotate => self.rotate = true,
            GizmoMode::Translate => self.translate = true,
            GizmoMode::Scale => self.scale = true,
        }
        proof {
            assert(final(self)@ =~= old(self)@.insert(mode));
        }
    }

    /// Whether `mode` is enabled.
    pub fn contains(&self, mode: GizmoMode) -> (r: bool)
        ensures
            r == self@.contains(mode),
    {
        match mode {
            GizmoMode::Rotate => self.rotate,
            GizmoMode::Translate => self.translate,
            GizmoMode::Scale => self.scale,
        }
    }

    /// Number of enabled modes.
    pub fn len(&self) -> (r: usize)
        ensures
            r == self.spec_len(),
    {
        let mut n: usize = 0;
        if self.rotate {
            n = n + 1;
        }
        if self.translate {
            n = n + 1;
        }
        if self.scale {
            n = n + 1;
        }
        n
    }

    /// Whether no mode is enabled.
    pub fn is_empty(&self) -> (r: bool)
        ensures
            r == (self@ == Set::<GizmoMode>::empty()),
    {
        let r = !self.rotate && !self.translate && !self.scale;
        proof {
            if r {
                assert(self@ =~= Set::<GizmoMode>::empty());
            } else if self.rotate {
                assert(self@.contains(GizmoMode::Rotate));
            } else if self.translate {
                assert(self@.contains(GizmoMode::Translate));
            } else {
                assert(self@.contains(GizmoMode::Scale));
            }
        }
        r
    }

    /// The enabled modes in iteration order: Rotate, Translate, Scale.
    pub fn to_vec(&self) -> (r: Vec<GizmoMode>)
        ensures
            r@ == self.spec_seq(),
    {
        let mut r: Vec<GizmoMode> = Vec::new();
        if self.rotate {
            r.push(GizmoMode::Rotate);
        }
        if self.translate {
            r.push(GizmoMode::Translate);
        }
        if self.scale {
            r.push(GizmoMode::Scale);
        }
        proof {
            assert(r@ =~= self.spec_seq());
        }
        r
    }
}

/// Orientation actually in effect: scaling only works in local
/// orientation, so the configured one is ignored while Scale is enabled.
pub open spec fn spec_effective_orientation(
    modes: GizmoModes,
    orientation: GizmoOrientation,
) -> GizmoOrientation {
    if modes.scale {
        GizmoOrientation::Local
    } else {
        orientation
    }
}

/// The orientation in effect for the given modes and configured orientation.
pub fn effective_orientation(modes: &GizmoModes, orientation: GizmoOrientation) -> (r:
    GizmoOrientation)
    ensures
        r == spec_effective_orientation(*modes, orientation),
        modes@.contains(GizmoMode::Scale) ==> r == GizmoOrientation::Local,
{
    if modes.contains(GizmoMode::Scale) {
        GizmoOrientation::Local
    } else {
        orientation
    }
}

/// Whether axes are expressed in the targets' local frame.
pub fn is_local_space(modes: &GizmoModes, orientation: GizmoOrientation) -> (r: bool)
    ensures
        r == (spec_effective_orientation(*modes, orientation) == GizmoOrientation::Local),
{
    effective_orientation(modes, orientation) == GizmoOrientation::Local
}

/// Whether a rotation about an axis is taken in the target's own frame:
/// in local orientation, except about the view axis, which is always the
/// camera's.
pub fn rotates_in_local_frame(
    modes: &GizmoModes,
    orientation: GizmoOrientation,
    is_view_axis: bool,
) -> (r: bool)
    ensures
        r == (spec_effective_orientation(*modes, orientation) == GizmoOrientation::Local
            && !is_view_axis),
{
    is_local_space(modes, orientation) && !is_view_axis
}

} // verus!
