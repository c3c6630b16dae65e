use rust_geodesic_raytracer::camera::camera_triple;
use rust_geodesic_raytracer::cli::SkyMode;
use rust_geodesic_raytracer::render::{
    assemble_image, check_debug_pixel, debug_ray_pixel, event_name, pixel_color, pixel_of_index,
    Event, RenderError, StepCheck, StepController, StopEvent, TraceAction,
};
use rust_geodesic_raytracer::sky::{checker_color, hash_u32, star_sample, star_seed, StarSample};

#[test]
fn hash_u32_known_values() {
    assert_eq!(hash_u32(0), 0);
    assert_eq!(hash_u32(1), 1753845952);
    assert_eq!(hash_u32(2), 3507691905);
    assert_eq!(hash_u32(0xdeadbeef), 3861431939);
    assert_eq!(hash_u32(u32::MAX), 1734902346);
}

#[test]
fn star_seed_mixes_both_coordinates() {
    assert_eq!(star_seed(0, 0), 0);
    assert_eq!(star_seed(1, 0), 0x9e3779b9);
    assert_eq!(star_seed(0, 1), 0x85ebca6b);
    assert_eq!(star_seed(-1, 5), 4233261648);
    assert_eq!(star_seed(1234, -77), 528261139);
}

#[test]
fn star_sample_splits_the_hash_into_bytes() {
    let s = star_sample(1, 0);
    assert_eq!(s, StarSample { warm: 82, green: 229, cool: 252, class: 1 });
    assert!(s.is_star());
    let t = star_sample(0, 1);
    assert_eq!(t, StarSample { warm: 114, green: 232, cool: 254, class: 30 });
    assert!(!t.is_star());
    let u = star_sample(1234, -77);
    assert_eq!(u, StarSample { warm: 79, green: 156, cool: 193, class: 76 });
    assert!(!u.is_star());
}

#[test]
fn star_class_threshold_is_three() {
    let mk = |class: u8| StarSample { warm: 0, green: 0, cool: 0, class };
    assert!(mk(0).is_star());
    assert!(mk(2).is_star());
    assert!(!mk(3).is_star());
    assert!(!mk(255).is_star());
}

#[test]
fn checker_colors_alternate() {
    assert_eq!(checker_color(0, 0), [255, 255, 255]);
    assert_eq!(checker_color(1, 0), [40, 40, 40]);
    assert_eq!(checker_color(0, 1), [40, 40, 40]);
    assert_eq!(checker_color(1, 1), [255, 255, 255]);
    assert_eq!(checker_color(-1, 0), [40, 40, 40]);
    assert_eq!(checker_color(-3, 1), [255, 255, 255]);
    // the coordinate sum overflows i32 here; its parity is what counts
    assert_eq!(checker_color(i32::MAX, i32::MAX), [255, 255, 255]);
    assert_eq!(checker_color(i32::MAX, 0), [40, 40, 40]);
    for su in -5..5 {
        for sv in -5..5 {
            assert_ne!(checker_color(su, sv), checker_color(su + 1, sv));
            assert_ne!(checker_color(su, sv), checker_color(su, sv + 1));
        }
    }
}

#[test]
fn event_names() {
    assert_eq!(event_name(Event::Capture), "capture");
    assert_eq!(event_name(Event::Escape), "escape");
    assert_eq!(event_name(Event::Disk), "disk");
    assert_eq!(event_name(Event::MaxSteps), "max_steps");
}

#[test]
fn only_escaped_and_disk_rays_show_color() {
    let col = [10, 20, 30];
    assert_eq!(pixel_color(Event::Escape, col), col);
    assert_eq!(pixel_color(Event::Disk, col), col);
    assert_eq!(pixel_color(Event::Capture, col), [0, 0, 0]);
    assert_eq!(pixel_color(Event::MaxSteps, col), [0, 0, 0]);
}

#[test]
fn error_messages() {
    assert_eq!(RenderError::PixelOutOfBounds.message(), "debug ray pixel out of bounds");
    assert_eq!(RenderError::DebugRayArity.message(), "--debug-ray expects exactly 2 integers");
    assert_eq!(RenderError::ImageBuffer.message(), "failed to build image buffer");
}

#[test]
fn step_controller_runs_out_of_steps() {
    let (mut ctl, a) = StepController::start(3);
    assert_eq!(a, TraceAction::Step(0));
    assert_eq!(ctl.advance(StepCheck::Continue), TraceAction::Step(1));
    assert_eq!(ctl.advance(StepCheck::Continue), TraceAction::Step(2));
    assert_eq!(ctl.advance(StepCheck::Continue), TraceAction::Finish(Event::MaxSteps, 3));
}

#[test]
fn step_controller_reports_the_stopping_step() {
    let (mut ctl, _) = StepController::start(10);
    assert_eq!(ctl.advance(StepCheck::Continue), TraceAction::Step(1));
    assert_eq!(ctl.step(), 1);
    assert_eq!(ctl.advance(StepCheck::Stop(StopEvent::Disk)), TraceAction::Finish(Event::Disk, 1));
    let (mut ctl, _) = StepController::start(5);
    assert_eq!(ctl.advance(StepCheck::Stop(StopEvent::Capture)), TraceAction::Finish(Event::Capture, 0));
}

#[test]
fn step_controller_with_empty_budget() {
    let (ctl, a) = StepController::start(0);
    assert_eq!(a, TraceAction::Finish(Event::MaxSteps, 0));
    assert_eq!(ctl.step(), 0);
}

#[test]
fn pixel_addressing_is_row_major() {
    assert_eq!(pixel_of_index(0, 4), (0, 0));
    assert_eq!(pixel_of_index(3, 4), (3, 0));
    assert_eq!(pixel_of_index(4, 4), (0, 1));
    assert_eq!(pixel_of_index(7, 3), (1, 2));
    assert_eq!(pixel_of_index(u32::MAX, 1), (0, u32::MAX));
}

#[test]
fn debug_pixel_bounds() {
    assert_eq!(check_debug_pixel(0, 0, 800, 600), Ok(()));
    assert_eq!(check_debug_pixel(799, 599, 800, 600), Ok(()));
    assert_eq!(check_debug_pixel(800, 0, 800, 600), Err(RenderError::PixelOutOfBounds));
    assert_eq!(check_debug_pixel(0, 600, 800, 600), Err(RenderError::PixelOutOfBounds));
    assert_eq!(check_debug_pixel(0, 0, 0, 0), Err(RenderError::PixelOutOfBounds));
}

#[test]
fn debug_ray_needs_two_coordinates() {
    assert_eq!(debug_ray_pixel(&vec![3, 4]), Ok((3, 4)));
    assert_eq!(debug_ray_pixel(&vec![3]), Err(RenderError::DebugRayArity));
    assert_eq!(debug_ray_pixel(&vec![1, 2, 3]), Err(RenderError::DebugRayArity));
    assert_eq!(debug_ray_pixel(&vec![]), Err(RenderError::DebugRayArity));
}

#[test]
fn assembled_image_holds_the_traced_pixels() {
    let pixels = vec![[1, 2, 3], [4, 5, 6], [7, 8, 9], [10, 11, 12], [13, 14, 15], [16, 17, 18]];
    let raster = assemble_image(3, 2, &pixels).unwrap();
    assert_eq!(raster.width(), 3);
    assert_eq!(raster.height(), 2);
    let bytes = raster.into_raw();
    assert_eq!(bytes, (1..=18).collect::<Vec<u8>>());
    for idx in 0..6u32 {
        let (x, y) = pixel_of_index(idx, 3);
        let at = 3 * (y * 3 + x) as usize;
        assert_eq!(&bytes[at..at + 3], &pixels[idx as usize][..]);
    }
}

#[test]
fn empty_image_assembles() {
    let raster = assemble_image(0, 5, &vec![]).unwrap();
    assert_eq!(raster.width(), 0);
    assert_eq!(raster.height(), 5);
    assert!(raster.into_raw().is_empty());
}

#[test]
fn stop_events_map_to_their_events() {
    assert_eq!(StopEvent::Capture.event(), Event::Capture);
    assert_eq!(StopEvent::Escape.event(), Event::Escape);
    assert_eq!(StopEvent::Disk.event(), Event::Disk);
    let (mut ctl, _) = StepController::start(4);
    assert_eq!(ctl.advance(StepCheck::Continue), TraceAction::Step(1));
    assert_eq!(ctl.advance(StepCheck::Stop(StopEvent::Escape)), TraceAction::Finish(Event::Escape, 1));
}

#[test]
fn sky_modes_are_distinct() {
    assert_ne!(SkyMode::Black, SkyMode::Checker);
    assert_ne!(SkyMode::Checker, SkyMode::Stars);
    let m = SkyMode::Stars;
    let n = m;
    assert_eq!(m, n);
}

#[test]
fn camera_triple_needs_exactly_three_values() {
    assert_eq!(camera_triple(&Some(vec![1.5f64, -2.0, 3.25])), Some([1.5, -2.0, 3.25]));
    assert_eq!(camera_triple::<f64>(&Some(vec![1.0, 2.0])), None);
    assert_eq!(camera_triple::<f64>(&Some(vec![1.0, 2.0, 3.0, 4.0])), None);
    assert_eq!(camera_triple::<f64>(&Some(vec![])), None);
    assert_eq!(camera_triple::<f64>(&None), None);
    assert_eq!(camera_triple(&Some(vec![7u32, 8, 9])), Some([7, 8, 9]));
}
