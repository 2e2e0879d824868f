use pathtracer_core::pathtracer::GPUFrameParameters;
use pathtracer_core::sampling_parameters::GPUSamplingParametersBuffer;

#[test]
fn frame_parameters_bytes_exact() {
    let p = GPUFrameParameters::new(800, 600, 2, 1);
    assert_eq!(
        p.to_bytes(),
        vec![32, 3, 0, 0, 88, 2, 0, 0, 2, 0, 0, 0, 1, 0, 0, 0]
    );
}

#[test]
fn frame_parameters_bytes_all_lanes() {
    let p = GPUFrameParameters::new(0xDEADBEEF, 0x01020304, 0, 0xFFFFFFFF);
    let b = p.to_bytes();
    assert_eq!(&b[0..4], &[0xEF, 0xBE, 0xAD, 0xDE]);
    assert_eq!(&b[4..8], &[0x04, 0x03, 0x02, 0x01]);
    assert_eq!(&b[8..12], &[0, 0, 0, 0]);
    assert_eq!(&b[12..16], &[0xFF, 0xFF, 0xFF, 0xFF]);
}

#[test]
fn sampling_parameters_bytes_exact() {
    let s = GPUSamplingParametersBuffer::new(3, 500, 8);
    assert_eq!(
        s.to_bytes(),
        vec![3, 0, 0, 0, 244, 1, 0, 0, 8, 0, 0, 0, 1, 0, 0, 0]
    );
}

#[test]
fn sampling_parameters_clear_flag_bytes() {
    let mut s = GPUSamplingParametersBuffer::new(1, 50, 1);
    s.set_clear_image_flag(false);
    assert_eq!(&s.to_bytes()[12..16], &[0, 0, 0, 0]);
    s.set_clear_image_flag(true);
    assert_eq!(&s.to_bytes()[12..16], &[1, 0, 0, 0]);
}

#[test]
fn frame_parameters_counter_updates() {
    let mut p = GPUFrameParameters::new(640, 480, 0, 0);
    p.increment_frame();
    assert_eq!(p.frame, 1);
    p.increment_accumulated_samples(5);
    p.increment_accumulated_samples(5);
    assert_eq!(p.accumulated_samples, 10);
    p.update_window_size(1920, 1080);
    assert_eq!((p.width, p.height), (1920, 1080));
    assert_eq!(p.frame, 1);
    p.reset();
    assert_eq!(p.frame, 1);
    assert_eq!(p.accumulated_samples, 0);
    assert_eq!((p.width, p.height), (1920, 1080));
}
