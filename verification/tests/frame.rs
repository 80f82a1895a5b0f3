use shadertoy_viewer::frame::{close_requested, FrameUniforms, WindowEvent};

#[test]
fn uniforms_hold_the_size_with_a_depth_of_one() {
    let uniforms = FrameUniforms::new(1024, 768, 2500, 42);
    assert_eq!(uniforms.resolution, (1024, 768, 1));
    assert_eq!(uniforms.time_millis, 2500);
    assert_eq!(uniforms.frame, 42);
}

#[test]
fn uniforms_of_an_empty_framebuffer_at_the_start() {
    let uniforms = FrameUniforms::new(0, 0, 0, 0);
    assert_eq!(uniforms, FrameUniforms { resolution: (0, 0, 1), time_millis: 0, frame: 0 });
}

#[test]
fn uniforms_at_the_largest_values() {
    let uniforms = FrameUniforms::new(u32::MAX, u32::MAX, u128::MAX, u64::MAX);
    assert_eq!(
        uniforms,
        FrameUniforms {
            resolution: (u32::MAX, u32::MAX, 1),
            time_millis: u128::MAX,
            frame: u64::MAX,
        }
    );
}

#[test]
fn no_events_no_close() {
    assert!(!close_requested(&vec![]));
}

#[test]
fn other_events_do_not_close() {
    assert!(!close_requested(&vec![WindowEvent::Other, WindowEvent::Other]));
}

#[test]
fn a_close_request_is_found_wherever_it_stands() {
    assert!(close_requested(&vec![WindowEvent::CloseRequested]));
    assert!(close_requested(&vec![WindowEvent::CloseRequested, WindowEvent::Other]));
    assert!(close_requested(&vec![WindowEvent::Other, WindowEvent::CloseRequested]));
    assert!(close_requested(&vec![
        WindowEvent::Other,
        WindowEvent::CloseRequested,
        WindowEvent::Other
    ]));
}
