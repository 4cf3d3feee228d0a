use sphere_view::zoom::{CameraRig, Lens};

fn rig(lens: Lens<f32>) -> CameraRig<f32, [f32; 3]> {
    CameraRig { main_lens: lens, main_position: [-2.5, 4.5, 9.0], inset_position: [0.0, 0.0, 0.0] }
}

fn fov_of(lens: &Lens<f32>) -> Option<f32> {
    match lens {
        Lens::Perspective { fov } => Some(*fov),
        Lens::Other => None,
    }
}

#[test]
fn nan_distance_leaves_cameras_unchanged() {
    let mut r = rig(Lens::Perspective { fov: 0.785 });
    let applied = r.fov_zoom(true, false, 1.2, [1.0, 2.0, 3.0]);
    assert!(!applied);
    assert_eq!(fov_of(&r.main_lens), Some(0.785));
    assert_eq!(r.main_position, [-2.5, 4.5, 9.0]);
    assert_eq!(r.inset_position, [0.0, 0.0, 0.0]);
}

#[test]
fn nan_fov_leaves_cameras_unchanged() {
    let mut r = rig(Lens::Perspective { fov: 0.785 });
    let applied = r.fov_zoom(false, true, f32::NAN, [1.0, 2.0, 3.0]);
    assert!(!applied);
    assert_eq!(fov_of(&r.main_lens), Some(0.785));
    assert_eq!(r.main_position, [-2.5, 4.5, 9.0]);
    assert_eq!(r.inset_position, [0.0, 0.0, 0.0]);
}

#[test]
fn applied_zoom_moves_both_cameras_and_sets_fov() {
    let mut r = rig(Lens::Perspective { fov: 0.785 });
    let applied = r.fov_zoom(false, false, 1.2, [1.0, 2.0, 3.0]);
    assert!(applied);
    assert_eq!(fov_of(&r.main_lens), Some(1.2));
    assert_eq!(r.main_position, [1.0, 2.0, 3.0]);
    assert_eq!(r.inset_position, r.main_position);
}

#[test]
fn applied_zoom_keeps_other_projection() {
    let mut r = rig(Lens::Other);
    let applied = r.fov_zoom(false, false, 1.2, [1.0, 2.0, 3.0]);
    assert!(applied);
    assert_eq!(fov_of(&r.main_lens), None);
    assert_eq!(r.main_position, [1.0, 2.0, 3.0]);
    assert_eq!(r.inset_position, [1.0, 2.0, 3.0]);
}
