use galaxy_map::camera::{
    axis, handle_camera_inputs, CameraDragState, CameraInput, UpsCounter, ZoomStep,
};

fn input() -> CameraInput {
    CameraInput {
        camera_found: true,
        left_just_pressed: false,
        left_just_released: false,
        key_w: false,
        key_s: false,
        key_a: false,
        key_d: false,
        orthographic: true,
        scroll: vec![],
    }
}

#[test]
fn ups_counter_publishes_once_a_second() {
    let mut c = UpsCounter { ticks: 0, last_second_ns: 0, ups: 0 };
    c.ticks = 57;
    assert!(!c.refresh(999_999_999));
    assert_eq!((c.ticks, c.ups, c.last_second_ns), (57, 0, 0));
    assert!(c.refresh(1_000_000_000));
    assert_eq!((c.ticks, c.ups, c.last_second_ns), (0, 57, 1_000_000_000));
    c.ticks = 3;
    assert!(!c.refresh(1_500_000_000));
    assert!(c.refresh(2_000_000_001));
    assert_eq!((c.ticks, c.ups), (0, 3));
}

#[test]
fn ups_counter_ignores_time_running_backwards() {
    let mut c = UpsCounter { ticks: 0, last_second_ns: 5_000_000_000, ups: 0 };
    c.ticks = 1;
    assert!(!c.refresh(0));
    assert_eq!((c.ticks, c.ups, c.last_second_ns), (1, 0, 5_000_000_000));
}

#[test]
fn camera_drag_follows_left_button() {
    let mut d = CameraDragState::default();
    d.update(true, false);
    assert!(d.is_dragging);
    d.update(false, false);
    assert!(d.is_dragging);
    d.update(false, true);
    assert!(!d.is_dragging);
    d.update(true, true);
    assert!(!d.is_dragging);
}

#[test]
fn axis_cancels_opposite_keys() {
    assert_eq!(axis(true, false), 1);
    assert_eq!(axis(false, true), -1);
    assert_eq!(axis(true, true), 0);
    assert_eq!(axis(false, false), 0);
}

#[test]
fn keys_give_direction() {
    let mut d = CameraDragState::default();
    let mut i = input();
    i.key_w = true;
    i.key_d = true;
    let p = handle_camera_inputs(&mut d, &i);
    assert_eq!((p.dir_x, p.dir_y, p.moves), (1, 1, true));
    let mut i = input();
    i.key_a = true;
    i.key_d = true;
    let p = handle_camera_inputs(&mut d, &i);
    assert_eq!((p.dir_x, p.dir_y, p.moves), (0, 0, false));
    let mut i = input();
    i.key_s = true;
    let p = handle_camera_inputs(&mut d, &i);
    assert_eq!((p.dir_x, p.dir_y, p.moves), (0, -1, true));
}

#[test]
fn wheel_zooms_orthographic_camera() {
    let mut d = CameraDragState::default();
    let mut i = input();
    i.scroll = vec![1, 0, -1, -1];
    let p = handle_camera_inputs(&mut d, &i);
    assert_eq!(p.zoom, vec![ZoomStep::In, ZoomStep::Out, ZoomStep::Out]);
    i.orthographic = false;
    let p = handle_camera_inputs(&mut d, &i);
    assert!(p.zoom.is_empty());
}

#[test]
fn drag_pans_with_mouse() {
    let mut d = CameraDragState::default();
    let mut i = input();
    i.left_just_pressed = true;
    let p = handle_camera_inputs(&mut d, &i);
    assert!(p.pan_with_mouse && d.is_dragging);
    let mut i = input();
    i.left_just_released = true;
    let p = handle_camera_inputs(&mut d, &i);
    assert!(!p.pan_with_mouse && !d.is_dragging);
}

#[test]
fn no_camera_no_change() {
    let mut d = CameraDragState { is_dragging: true };
    let mut i = input();
    i.camera_found = false;
    i.left_just_released = true;
    i.key_w = true;
    i.scroll = vec![1];
    let p = handle_camera_inputs(&mut d, &i);
    assert!(d.is_dragging);
    assert!(!p.pan_with_mouse && !p.moves && p.zoom.is_empty());
    assert_eq!((p.dir_x, p.dir_y), (0, 0));
}

#[test]
fn publications_in_a_run_are_a_second_apart() {
    let mut c = UpsCounter { ticks: 0, last_second_ns: 0, ups: 0 };
    let times = [400_000_000u64, 1_000_000_000, 1_900_000_000, 1_999_999_999, 2_000_000_000, 2_500_000_000, 3_100_000_000];
    let published: Vec<u64> = times.iter().copied().filter(|t| c.refresh(*t)).collect();
    assert_eq!(published, vec![1_000_000_000, 2_000_000_000, 3_100_000_000]);
}
