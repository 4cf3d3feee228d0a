use vstd::prelude::*;

verus! {

/// The projection of the main camera, with the field of view kept as an
/// opaque angle value `A`.
pub enum Lens<A> {
    /// A perspective projection with its vertical field of view.
    Perspective { fov: A },
    /// Any other projection; the zoom never changes it.
    Other,
}

/// The state that the dolly-zoom update touches: the main camera's projection
/// and the positions of the main and inset cameras, each an opaque vector `V`.
pub struct CameraRig<A, V> {
    pub main_lens: Lens<A>,
    pub main_position: V,
    pub inset_position: V,
}

/// A frame's update goes ahead only when neither the distance nor the field
/// of view computed for it is NaN.
pub open spec fn zoom_applies(distance_is_nan: bool, fov_is_nan: bool) -> bool {
    !distance_is_nan && !fov_is_nan
}

/// The projection after the new field of view is written: a perspective one
/// takes it, any other is left as it is.
pub open spec fn lens_with_fov<A>(lens: Lens<A>, fov: A) -> Lens<A> {
    match lens {
        Lens::Perspective { .. } => Lens::Perspective { fov },
        Lens::Other => Lens::Other,
    }
}

/// The rig after one frame: unchanged when the frame is skipped, otherwise
/// with the new field of view and both cameras at the new position.
pub open spec fn zoom_next<A, V>(
    rig: CameraRig<A, V>,
    distance_is_nan: bool,
    fov_is_nan: bool,
    fov: A,
    position: V,
) -> CameraRig<A, V> {
    if zoom_applies(distance_is_nan, fov_is_nan) {
        CameraRig {
            main_lens: lens_with_fov(rig.main_lens, fov),
            main_position: position,
            inset_position: position,
        }
    } else {
        rig
    }
}

impl<A, V: Copy> CameraRig<A, V> {
    /// Applies one frame of the dolly zoom. `fov` is the field of view and
    /// `position` the camera position computed for the frame's distance; the
    /// two flags say whether that distance and that field of view came out
    /// NaN. Returns whether the update went ahead, in which case the inset
    /// camera is to be turned back towards the origin.
    pub fn fov_zoom(&mut self, distance_is_nan: bool, fov_is_nan: bool, fov: A, position: V) -> (r:
        bool)
        ensures
            r == zoom_applies(distance_is_nan, fov_is_nan),
            *final(self) == zoom_next(*old(self), distance_is_nan, fov_is_nan, fov, position),
            !r ==> *final(self) == *old(self),
            r ==> final(self).main_position == position,
            r ==> final(self).inset_position == position,
            r ==> final(self).main_lens == lens_with_fov(old(self).main_lens, fov),
    {
        if distance_is_nan {
            return false;
        }
        if fov_is_nan {
            return false;
        }
        match &mut self.main_lens {
            Lens::Perspective { fov: f } => {
                *f = fov;
            },
            Lens::Other => {},
        }
        self.main_position = position;
        self.inset_position = position;
        true
    }
}

/// A frame whose distance came out NaN leaves the main camera's projection
/// and position, and the inset camera's position, exactly as they were.
pub proof fn lemma_nan_distance_keeps_rig<A, V>(
    rig: CameraRig<A, V>,
    fov_is_nan: bool,
    fov: A,
    position: V,
)
    ensures
        zoom_next(rig, true, fov_is_nan, fov, position) == rig,
{
}

/// After a frame that goes ahead, the inset camera stands where the main camera
/// stands, and the main camera's field of view is the new one if its
/// projection is a perspective one.
pub proof fn lemma_applied_zoom_shares_position<A, V>(
    rig: CameraRig<A, V>,
    distance_is_nan: bool,
    fov_is_nan: bool,
    fov: A,
    position: V,
)
    requires
        zoom_applies(distance_is_nan, fov_is_nan),
    ensures
        zoom_next(rig, distance_is_nan, fov_is_nan, fov, position).inset_position == zoom_next(
            rig,
            distance_is_nan,
            fov_is_nan,
            fov,
            position,
        ).main_position,
        zoom_next(rig, distance_is_nan, fov_is_nan, fov, position).main_position == position,
        rig.main_lens is Perspective ==> zoom_next(
            rig,
            distance_is_nan,
            fov_is_nan,
            fov,
            position,
        ).main_lens == (Lens::Perspective { fov }),
{
}

} // verus!
