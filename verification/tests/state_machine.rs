use pathtracer_core::pathtracer::PathTracer;
use pathtracer_core::user_input::UserInput;

fn default_input() -> UserInput {
    UserInput::default()
}

#[test]
fn initial_state() {
    let pt = PathTracer::new(800, 600);
    assert_eq!(pt.frame_parameters.width, 800);
    assert_eq!(pt.frame_parameters.height, 600);
    assert_eq!(pt.frame_parameters.frame, 0);
    assert_eq!(pt.frame_parameters.accumulated_samples, 0);
    assert_eq!(pt.sampling_parameters.samples_per_frame, 1);
    assert_eq!(pt.sampling_parameters.samples_per_pixel, 50);
    assert_eq!(pt.sampling_parameters.number_of_bounces, 1);
    assert_eq!(pt.sampling_parameters.clear_image_buffer, 1);
}

#[test]
fn changed_input_restarts_accumulation() {
    let mut pt = PathTracer::new(800, 600);
    let mut input = default_input();
    assert!(input.state_changed());
    let d = pt.run_path_tracer(&mut input, 800, 600);
    assert!(d.refresh_render_parameters);
    assert!(d.dispatch);
    // The reset puts the counters at frame 1 with nothing accumulated, then
    // the same tick dispatches one full batch.
    assert_eq!(pt.frame_parameters.frame, 2);
    assert_eq!(pt.frame_parameters.accumulated_samples, 1);
    assert!(!input.state_changed());
    assert_eq!(pt.sampling_parameters.clear_image_buffer, 0);
}

#[test]
fn restart_returns_to_frame_one() {
    // The update cycle that consumes changed input ends, before the next
    // batch is credited, with nothing accumulated and the frame index at one.
    let mut pt = PathTracer::new(800, 600);
    let mut input = default_input();
    for _ in 0..10 {
        pt.run_path_tracer(&mut input, 800, 600);
    }
    assert_eq!(pt.frame_parameters.accumulated_samples, 10);
    input.state_changed = true;
    pt.process_user_input(&mut input);
    let bytes = pt.restart_accumulation();
    assert_eq!(pt.frame_parameters.frame, 1);
    assert_eq!(pt.frame_parameters.accumulated_samples, 0);
    assert_eq!(pt.progress(), 0);
    assert_eq!(&bytes[12..16], &[1, 0, 0, 0]);
    assert_eq!(pt.sampling_parameters.clear_image_buffer, 0);
}

#[test]
fn scenario_full_convergence() {
    // samples_per_pixel = 50, samples_per_frame = 1; one changed tick to
    // consume the startup input, then ticks with no input change until the
    // target is reached.
    let mut pt = PathTracer::new(800, 600);
    let mut input = default_input();
    pt.run_path_tracer(&mut input, 800, 600);
    assert_eq!(pt.frame_parameters.accumulated_samples, 1);
    for _ in 0..49 {
        let d = pt.run_path_tracer(&mut input, 800, 600);
        assert!(d.dispatch);
        assert!(!d.refresh_render_parameters);
    }
    assert_eq!(pt.frame_parameters.accumulated_samples, 50);
    assert_eq!(pt.progress(), 100);
    // Further ticks perform no dispatch and change nothing.
    for _ in 0..5 {
        let d = pt.run_path_tracer(&mut input, 800, 600);
        assert!(!d.dispatch);
        assert!(!d.refresh_render_parameters);
        assert_eq!(pt.frame_parameters.accumulated_samples, 50);
        assert_eq!(pt.progress(), 100);
    }
}

#[test]
fn scenario_mouse_drag_resets() {
    // Mid-run at accumulated = 30 of 50, a mouse drag marks the input dirty;
    // the next tick restarts accumulation and immediately dispatches the
    // first batch of the new run.
    let mut pt = PathTracer::new(800, 600);
    let mut input = default_input();
    for _ in 0..30 {
        pt.run_path_tracer(&mut input, 800, 600);
    }
    assert_eq!(pt.frame_parameters.accumulated_samples, 30);
    assert_eq!(pt.progress(), 60);

    input.state_changed = true;
    let d = pt.run_path_tracer(&mut input, 800, 600);
    assert!(d.refresh_render_parameters);
    assert_eq!(pt.frame_parameters.frame, 2);
    assert_eq!(pt.frame_parameters.accumulated_samples, 1);
    assert_eq!(pt.progress(), 2);
}

#[test]
fn scenario_resize_resets() {
    // A surface resize from 800x600 to 1024x768 mid-accumulation forces the
    // same reset as a changed input.
    let mut pt = PathTracer::new(800, 600);
    let mut input = default_input();
    for _ in 0..30 {
        pt.run_path_tracer(&mut input, 800, 600);
    }
    assert_eq!(pt.frame_parameters.accumulated_samples, 30);

    let d = pt.run_path_tracer(&mut input, 1024, 768);
    assert!(d.refresh_render_parameters);
    assert_eq!(pt.frame_parameters.width, 1024);
    assert_eq!(pt.frame_parameters.height, 768);
    assert_eq!(pt.frame_parameters.frame, 2);
    assert_eq!(pt.frame_parameters.accumulated_samples, 1);
    assert_eq!(pt.progress(), 2);
    assert_eq!(d.workgroups_x, 256);
    assert_eq!(d.workgroups_y, 192);
}

#[test]
fn overshoot_stays_under_one_batch() {
    // With a batch of 7 against a target of 50, the final tick overshoots to
    // 56 = 50 + 7 - 1 and never further.
    let mut pt = PathTracer::new(800, 600);
    let mut input = default_input();
    input.set_samples_per_frame(7);
    let mut ticks = 0;
    loop {
        let d = pt.run_path_tracer(&mut input, 800, 600);
        ticks += 1;
        let acc = pt.frame_parameters.accumulated_samples;
        let spp = pt.sampling_parameters.samples_per_pixel;
        let spf = pt.sampling_parameters.samples_per_frame;
        assert!(acc < spp + spf);
        if !d.dispatch {
            break;
        }
        assert!(ticks < 100);
    }
    assert_eq!(pt.frame_parameters.accumulated_samples, 56);
    assert_eq!(pt.progress(), 100);
}

#[test]
fn smallest_target_converges_in_one_tick() {
    let mut pt = PathTracer::new(64, 64);
    let mut input = default_input();
    input.set_samples_per_pixel(1);
    let d = pt.run_path_tracer(&mut input, 64, 64);
    assert!(d.dispatch);
    assert_eq!(pt.frame_parameters.accumulated_samples, 1);
    assert_eq!(pt.progress(), 100);
    let d2 = pt.run_path_tracer(&mut input, 64, 64);
    assert!(!d2.dispatch);
    assert!(!d2.refresh_render_parameters);
}

#[test]
fn progress_is_monotone_between_resets() {
    let mut pt = PathTracer::new(800, 600);
    let mut input = default_input();
    input.set_samples_per_frame(3);
    pt.run_path_tracer(&mut input, 800, 600);
    let mut last = pt.progress();
    for _ in 0..30 {
        pt.run_path_tracer(&mut input, 800, 600);
        let p = pt.progress();
        assert!(p >= last);
        assert!(p <= 100);
        last = p;
    }
}

#[test]
fn progress_exact_values() {
    let mut pt = PathTracer::new(800, 600);
    let mut input = default_input();
    pt.run_path_tracer(&mut input, 800, 600);
    for _ in 0..29 {
        pt.run_path_tracer(&mut input, 800, 600);
    }
    // 30 of 50 accumulated: 60 percent.
    assert_eq!(pt.frame_parameters.accumulated_samples, 30);
    assert_eq!(pt.progress(), 60);
}

#[test]
fn unchanged_tick_keeps_render_parameters() {
    let mut pt = PathTracer::new(800, 600);
    let mut input = default_input();
    pt.run_path_tracer(&mut input, 800, 600);
    let d = pt.run_path_tracer(&mut input, 800, 600);
    assert!(!d.refresh_render_parameters);
    assert!(d.dispatch);
    assert_eq!(d.workgroups_x, 200);
    assert_eq!(d.workgroups_y, 150);
}

#[test]
fn workgroups_round_down() {
    // The dispatch grid is the surface size divided by the fixed 4x4
    // workgroup size, rounding down.
    let mut pt = PathTracer::new(803, 601);
    let mut input = default_input();
    let d = pt.run_path_tracer(&mut input, 803, 601);
    assert_eq!(d.workgroups_x, 200);
    assert_eq!(d.workgroups_y, 150);
}

#[test]
fn clear_pulse_lasts_one_tick() {
    let mut pt = PathTracer::new(800, 600);
    let mut input = default_input();
    let d = pt.run_path_tracer(&mut input, 800, 600);
    // The pushed sampling bytes carry the raised clear flag...
    assert_eq!(&d.sampling_bytes[12..16], &[1, 0, 0, 0]);
    // ...while the stored state has already lowered it.
    assert_eq!(pt.sampling_parameters.clear_image_buffer, 0);
    // The next tick pushes a lowered flag.
    let d2 = pt.run_path_tracer(&mut input, 800, 600);
    assert_eq!(&d2.sampling_bytes[12..16], &[0, 0, 0, 0]);
}

#[test]
fn changed_tick_copies_sliders() {
    let mut pt = PathTracer::new(800, 600);
    let mut input = default_input();
    input.set_samples_per_frame(4);
    input.set_samples_per_pixel(200);
    input.set_number_of_bounces(8);
    let d = pt.run_path_tracer(&mut input, 800, 600);
    assert!(d.refresh_render_parameters);
    assert_eq!(pt.sampling_parameters.samples_per_frame, 4);
    assert_eq!(pt.sampling_parameters.samples_per_pixel, 200);
    assert_eq!(pt.sampling_parameters.number_of_bounces, 8);
    assert_eq!(pt.frame_parameters.accumulated_samples, 4);
    assert_eq!(pt.progress(), 2);
}

#[test]
fn frame_bytes_follow_the_counters() {
    let mut pt = PathTracer::new(800, 600);
    let mut input = default_input();
    let d = pt.run_path_tracer(&mut input, 800, 600);
    // width 800, height 600, frame 2, accumulated 1, little endian.
    assert_eq!(
        d.frame_bytes,
        vec![32, 3, 0, 0, 88, 2, 0, 0, 2, 0, 0, 0, 1, 0, 0, 0]
    );
}
