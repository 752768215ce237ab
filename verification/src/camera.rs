//! The orbit camera: a camera on a sphere around a target, turned by pointer
//! drags and moved in and out by the scroll wheel.

use crate::fixed::{
    clamp, clamped, fixed_mul, lemma_scaled_by_fraction, lemma_scaled_unit,
    lemma_trunc_div_monotonic, saturate, saturated, scaled, ONE,
};
use crate::vector::Vec3;
use core::ops::Range;
use vstd::prelude::*;

verus! {

/// A quarter turn in fixed-point radians, rounded down: an angle of this
/// size is still short of a right angle.
pub const FRAC_PI_2: i64 = 1_570_796;

/// The smallest factor by which one scroll may multiply the radius.
pub const MIN_ZOOM_FACTOR: i64 = 100_000;

/// Speeds and limits of the orbit camera.
#[derive(Debug)]
pub struct CameraSettings {
    /// Smallest and largest distance from the target.
    pub radius_range: Range<i64>,
    /// Smallest and largest pitch, in radians.
    pub pitch_range: Range<i64>,
    /// Radians of rotation for each unit of pointer motion.
    pub rotate_speed: i64,
    /// Share of the radius that one unit of scroll takes away.
    pub zoom_speed: i64,
}

/// An orbit camera: `yaw` turns it around the vertical axis, `pitch` tilts
/// it toward the poles, `radius` is its distance from `target`. The angles
/// are in radians.
#[derive(Clone, Copy, Debug, PartialEq, Eq, Structural)]
pub struct OrbitCamera {
    pub yaw: i64,
    pub pitch: i64,
    pub radius: i64,
    pub target: Vec3,
}

/// Sine and cosine of an angle, as fixed-point numbers.
#[derive(Clone, Copy, Debug, PartialEq, Eq, Structural)]
pub struct SinCos {
    pub sin: i64,
    pub cos: i64,
}

/// Where the camera stands and which point it looks at. Its up direction is
/// the world's second axis.
#[derive(Clone, Copy, Debug, PartialEq, Eq, Structural)]
pub struct CameraPose {
    pub translation: Vec3,
    pub look_at: Vec3,
}

/// The factor by which a scroll of `scroll_y` multiplies the radius: 1 less
/// the scroll times the zoom speed, and at least a tenth.
pub open spec fn spec_zoom_factor(scroll_y: int, zoom_speed: int) -> int {
    if ONE - scaled(scroll_y, zoom_speed) < MIN_ZOOM_FACTOR {
        MIN_ZOOM_FACTOR as int
    } else {
        ONE - scaled(scroll_y, zoom_speed)
    }
}

impl SinCos {
    /// Neither value is beyond 1 in magnitude.
    pub open spec fn wf(&self) -> bool {
        &&& -ONE <= self.sin <= ONE
        &&& -ONE <= self.cos <= ONE
    }

    /// Sine and cosine of the angle 0.
    pub open spec fn spec_zero_angle() -> SinCos {
        SinCos { sin: 0, cos: ONE }
    }
}

impl CameraSettings {
    /// The radius range does not end before it starts.
    pub open spec fn radius_ordered(&self) -> bool {
        self.radius_range.start <= self.radius_range.end
    }

    /// The pitch range does not end before it starts.
    pub open spec fn pitch_ordered(&self) -> bool {
        self.pitch_range.start <= self.pitch_range.end
    }

    /// Neither range ends before it starts.
    pub open spec fn wf(&self) -> bool {
        self.radius_ordered() && self.pitch_ordered()
    }

    /// The pitch range ends short of a right angle on both sides.
    pub open spec fn keeps_off_poles(&self) -> bool {
        &&& -FRAC_PI_2 <= self.pitch_range.start
        &&& self.pitch_range.end <= FRAC_PI_2
    }

    /// The settings that `default` gives.
    pub open spec fn spec_default() -> CameraSettings {
        CameraSettings {
            radius_range: Range { start: 1_500_000, end: 50_000_000 },
            pitch_range: Range { start: (-1_560_796) as i64, end: 1_560_796 },
            rotate_speed: 5_000,
            zoom_speed: 150_000,
        }
    }
}

impl Default for CameraSettings {
    /// A radius from 1.5 to 50, a pitch that stops 0.01 short of a quarter
    /// turn on both sides, a rotate speed of 0.005 and a zoom speed of 0.15.
    fn default() -> (settings: Self)
        ensures
            settings == CameraSettings::spec_default(),
            settings.wf(),
            settings.keeps_off_poles(),
    {
        let pitch_limit: i64 = FRAC_PI_2 - 10_000;
        CameraSettings {
            radius_range: Range { start: 1_500_000, end: 50_000_000 },
            pitch_range: Range { start: -pitch_limit, end: pitch_limit },
            rotate_speed: 5_000,
            zoom_speed: 150_000,
        }
    }
}

impl OrbitCamera {
    /// The camera that `default` gives.
    pub open spec fn spec_default() -> OrbitCamera {
        OrbitCamera { yaw: 0, pitch: 0, radius: 4_000_000, target: Vec3::spec_zero() }
    }

    /// Pitch and radius lie within the ranges of `settings`.
    pub open spec fn within(&self, settings: &CameraSettings) -> bool {
        &&& settings.pitch_range.start <= self.pitch <= settings.pitch_range.end
        &&& settings.radius_range.start <= self.radius <= settings.radius_range.end
    }

    /// The camera after a drag of `delta`: the yaw grows by the horizontal
    /// motion times the rotate speed, as far as an `i64` holds it; the pitch
    /// falls by the vertical motion times the rotate speed, and is then
    /// limited to the pitch range.
    pub open spec fn spec_rotated(self, settings: &CameraSettings, delta: (i64, i64)) -> OrbitCamera {
        OrbitCamera {
            yaw: saturated(self.yaw + scaled(delta.0 as int, settings.rotate_speed as int)) as i64,
            pitch: clamped(
                self.pitch - scaled(delta.1 as int, settings.rotate_speed as int),
                settings.pitch_range.start as int,
                settings.pitch_range.end as int,
            ) as i64,
            radius: self.radius,
            target: self.target,
        }
    }

    /// The camera after a scroll of `scroll_y`: unchanged for no scroll,
    /// else the radius is multiplied by the zoom factor and then limited to
    /// the radius range.
    pub open spec fn spec_zoomed(self, settings: &CameraSettings, scroll_y: i64) -> OrbitCamera {
        if scroll_y == 0 {
            self
        } else {
            OrbitCamera {
                yaw: self.yaw,
                pitch: self.pitch,
                radius: clamped(
                    scaled(self.radius as int, spec_zoom_factor(scroll_y as int, settings.zoom_speed as int)),
                    settings.radius_range.start as int,
                    settings.radius_range.end as int,
                ) as i64,
                target: self.target,
            }
        }
    }

    /// The pose of the camera, from the sines and cosines of its yaw and
    /// pitch. The direction from the target to the camera is
    /// `(cos yaw * cos pitch, sin pitch, sin yaw * cos pitch)`; the camera
    /// stands `radius` along it, as far as an `i64` holds each coordinate,
    /// and looks at the target.
    pub open spec fn spec_pose(self, yaw: SinCos, pitch: SinCos) -> CameraPose {
        let dir_x = scaled(yaw.cos as int, pitch.cos as int);
        let dir_y = pitch.sin as int;
        let dir_z = scaled(yaw.sin as int, pitch.cos as int);
        CameraPose {
            translation: Vec3 {
                x: saturated(self.target.x + scaled(dir_x, self.radius as int)) as i64,
                y: saturated(self.target.y + scaled(dir_y, self.radius as int)) as i64,
                z: saturated(self.target.z + scaled(dir_z, self.radius as int)) as i64,
            },
            look_at: self.target,
        }
    }
}

impl Default for OrbitCamera {
    /// On the equator, on the first axis, at distance 4 from the origin.
    fn default() -> (orbit: Self)
        ensures
            orbit == OrbitCamera::spec_default(),
            orbit.within(&CameraSettings::spec_default()),
    {
        OrbitCamera { yaw: 0, pitch: 0, radius: 4_000_000, target: Vec3::zero() }
    }
}

impl OrbitCamera {
    /// Derives the pose of the camera from the sines and cosines of its yaw
    /// and pitch.
    pub fn update_transform(&self, yaw: &SinCos, pitch: &SinCos) -> (pose: CameraPose)
        requires
            yaw.wf(),
            pitch.wf(),
        ensures
            pose == self.spec_pose(*yaw, *pitch),
            pose.translation.x == saturated(
                self.target.x + scaled(scaled(yaw.cos as int, pitch.cos as int), self.radius as int),
            ),
            pose.translation.y == saturated(self.target.y + scaled(pitch.sin as int, self.radius as int)),
            pose.translation.z == saturated(
                self.target.z + scaled(scaled(yaw.sin as int, pitch.cos as int), self.radius as int),
            ),
            pose.look_at == self.target,
    {
        proof {
            lemma_scaled_by_fraction(yaw.cos as int, pitch.cos as int);
            lemma_scaled_by_fraction(yaw.sin as int, pitch.cos as int);
        }
        let dir_x: i64 = fixed_mul(yaw.cos, pitch.cos) as i64;
        let dir_y: i64 = pitch.sin;
        let dir_z: i64 = fixed_mul(yaw.sin, pitch.cos) as i64;
        CameraPose {
            translation: Vec3 {
                x: along(self.target.x, dir_x, self.radius),
                y: along(self.target.y, dir_y, self.radius),
                z: along(self.target.z, dir_z, self.radius),
            },
            look_at: self.target,
        }
    }
}

/// The coordinate that lies `radius` along `direction` from `origin`.
fn along(origin: i64, direction: i64, radius: i64) -> (r: i64)
    ensures
        r == saturated(origin + scaled(direction as int, radius as int)),
{
    saturate(origin as i128 + fixed_mul(direction, radius))
}

/// Computes the factor by which a scroll multiplies the radius.
fn zoom_factor(scroll_y: i64, zoom_speed: i64) -> (factor: i128)
    ensures
        factor == spec_zoom_factor(scroll_y as int, zoom_speed as int),
        factor >= MIN_ZOOM_FACTOR,
{
    let raw: i128 = ONE as i128 - fixed_mul(scroll_y, zoom_speed);
    if raw < MIN_ZOOM_FACTOR as i128 {
        MIN_ZOOM_FACTOR as i128
    } else {
        raw
    }
}

/// Creates the camera at startup, with its pose: on the first axis, at
/// distance 4 from the origin, looking at the origin.
pub fn setup_camera() -> (r: (OrbitCamera, CameraPose))
    ensures
        r.0 == OrbitCamera::spec_default(),
        r.0.within(&CameraSettings::spec_default()),
        r.1 == r.0.spec_pose(SinCos::spec_zero_angle(), SinCos::spec_zero_angle()),
        r.1.translation == (Vec3 { x: 4_000_000, y: 0, z: 0 }),
        r.1.look_at == Vec3::spec_zero(),
{
    let orbit = OrbitCamera::default();
    let zero_angle = SinCos { sin: 0, cos: ONE };
    proof {
        lemma_pose_at_zero_angles(orbit.radius, orbit.target);
    }
    let pose = orbit.update_transform(&zero_angle, &zero_angle);
    (orbit, pose)
}

/// Turns the camera by a pointer drag. `pressed` says whether the drag
/// button is held; `delta` is the pointer motion since the last frame, to
/// the right and downward. While the button is not held nothing changes.
/// Returns whether the pose has to be derived again.
pub fn orbit_camera(
    orbit: &mut OrbitCamera,
    settings: &CameraSettings,
    pressed: bool,
    delta: (i64, i64),
) -> (moved: bool)
    requires
        pressed ==> settings.pitch_ordered(),
    ensures
        moved == pressed,
        pressed ==> *final(orbit) == old(orbit).spec_rotated(settings, delta),
        !pressed ==> *final(orbit) == *old(orbit),
        pressed ==> final(orbit).yaw == saturated(
            old(orbit).yaw + scaled(delta.0 as int, settings.rotate_speed as int),
        ),
        pressed ==> final(orbit).pitch == clamped(
            old(orbit).pitch - scaled(delta.1 as int, settings.rotate_speed as int),
            settings.pitch_range.start as int,
            settings.pitch_range.end as int,
        ),
        pressed ==> settings.pitch_range.start <= final(orbit).pitch <= settings.pitch_range.end,
        pressed && settings.keeps_off_poles() ==> -FRAC_PI_2 <= final(orbit).pitch <= FRAC_PI_2,
        old(orbit).within(settings) ==> final(orbit).within(settings),
{
    if !pressed {
        return false;
    }
    orbit.yaw = saturate(orbit.yaw as i128 + fixed_mul(delta.0, settings.rotate_speed));
    orbit.pitch = clamp(
        orbit.pitch as i128 - fixed_mul(delta.1, settings.rotate_speed),
        settings.pitch_range.start,
        settings.pitch_range.end,
    );
    true
}

/// Moves the camera in or out by a scroll of `scroll_y`. No scroll changes
/// nothing. Returns whether the pose has to be derived again.
pub fn zoom_camera(orbit: &mut OrbitCamera, settings: &CameraSettings, scroll_y: i64) -> (moved: bool)
    requires
        scroll_y != 0 ==> settings.radius_ordered(),
    ensures
        moved == (scroll_y != 0),
        *final(orbit) == old(orbit).spec_zoomed(settings, scroll_y),
        scroll_y == 0 ==> *final(orbit) == *old(orbit),
        scroll_y != 0 ==> final(orbit).radius == clamped(
            scaled(old(orbit).radius as int, spec_zoom_factor(scroll_y as int, settings.zoom_speed as int)),
            settings.radius_range.start as int,
            settings.radius_range.end as int,
        ),
        scroll_y != 0 ==> settings.radius_range.start <= final(orbit).radius <= settings.radius_range.end,
        old(orbit).within(settings) ==> final(orbit).within(settings),
{
    if scroll_y == 0 {
        return false;
    }
    let factor: i128 = zoom_factor(scroll_y, settings.zoom_speed);
    let radius: i128 = orbit.radius as i128;
    match radius.checked_mul(factor) {
        Some(product) => {
            orbit.radius = clamp(product / ONE as i128, settings.radius_range.start, settings.radius_range.end);
        },
        None => {
            proof {
                lemma_scaled_beyond_range(radius as int, factor as int);
            }
            if orbit.radius > 0 {
                orbit.radius = settings.radius_range.end;
            } else {
                orbit.radius = settings.radius_range.start;
            }
        },
    }
    true
}

/// Applies one frame's pointer input to the camera: first the drag, then the
/// scroll. Returns whether either changed the camera, so that a frame derives
/// the pose at most once.
pub fn update_camera(
    orbit: &mut OrbitCamera,
    settings: &CameraSettings,
    pressed: bool,
    delta: (i64, i64),
    scroll_y: i64,
) -> (moved: bool)
    requires
        pressed ==> settings.pitch_ordered(),
        scroll_y != 0 ==> settings.radius_ordered(),
    ensures
        moved == (pressed || scroll_y != 0),
        pressed ==> *final(orbit) == old(orbit).spec_rotated(settings, delta).spec_zoomed(settings, scroll_y),
        !pressed ==> *final(orbit) == old(orbit).spec_zoomed(settings, scroll_y),
        !moved ==> *final(orbit) == *old(orbit),
        old(orbit).within(settings) ==> final(orbit).within(settings),
{
    let turned = orbit_camera(orbit, settings, pressed, delta);
    let zoomed = zoom_camera(orbit, settings, scroll_y);
    turned || zoomed
}

/// A fixed-point product whose exact product is beyond what an `i128`
/// holds is itself beyond what an `i64` holds, on the side of the first
/// factor's sign.
proof fn lemma_scaled_beyond_range(a: int, factor: int)
    requires
        factor > 0,
        a * factor > i128::MAX || a * factor < i128::MIN,
    ensures
        a > 0 ==> scaled(a, factor) > i64::MAX,
        a <= 0 ==> scaled(a, factor) < i64::MIN,
{
    let one = ONE as int;
    if a > 0 {
        assert(a * factor > 0) by (nonlinear_arith)
            requires
                a > 0,
                factor > 0,
        ;
        lemma_trunc_div_monotonic(i128::MAX as int, a * factor, one);
    } else {
        assert(a * factor <= 0) by (nonlinear_arith)
            requires
                a <= 0,
                factor > 0,
        ;
        lemma_trunc_div_monotonic(a * factor, i128::MIN as int, one);
    }
}

/// At yaw 0 and pitch 0 the camera stands on the first axis through its
/// target, at the distance of its radius, and looks at the target: with the
/// target at the origin it stands at `(radius, 0, 0)` and looks back along
/// the first axis.
pub proof fn lemma_pose_at_zero_angles(radius: i64, target: Vec3)
    ensures
        ({
            let orbit = OrbitCamera { yaw: 0, pitch: 0, radius, target };
            let pose = orbit.spec_pose(SinCos::spec_zero_angle(), SinCos::spec_zero_angle());
            &&& pose.translation.x == saturated(target.x + radius)
            &&& pose.translation.y == target.y
            &&& pose.translation.z == target.z
            &&& pose.look_at == target
            &&& target == Vec3::spec_zero() ==> pose.translation == (Vec3 { x: radius, y: 0, z: 0 })
        }),
{
    lemma_scaled_unit(ONE as int);
    lemma_scaled_unit(radius as int);
}

/// Turning and zooming touch different parts of the camera, so a frame may
/// apply them in either order.
pub proof fn lemma_rotate_zoom_commute(orbit: OrbitCamera, settings: CameraSettings, delta: (i64, i64), scroll_y: i64)
    ensures
        orbit.spec_rotated(&settings, delta).spec_zoomed(&settings, scroll_y)
            == orbit.spec_zoomed(&settings, scroll_y).spec_rotated(&settings, delta),
{
}

} // verus!
