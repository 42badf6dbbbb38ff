use ctru::error::Error;
use ctru::services::cam::{
    picture_wait_outcome, Cam, Camera, OutputFormat, Transfer, Trimming, ViewSize, PORT_BOTH, PORT_CAM1, PORT_CAM2,
};
use ctru::services::gfx::{Gfx, Screen, Side, TopScreen, TopScreen3D, GFX_BOTTOM, GFX_TOP};
use ctru::services::gspgpu::{Event, FramebufferFormat};
use ctru::services::ndsp::wave::{Status, Wave};
use ctru::services::ndsp::{AudioFormat, InterpolationType, Ndsp, NdspError, OutputMode, NUMBER_OF_CHANNELS};
use ctru::services::reference::ServiceCounter;

fn ok_start() -> Result<(), Error> {
    Ok(())
}

fn new_ndsp(counter: &mut ServiceCounter) -> Ndsp {
    Ndsp::new(counter, ok_start, || {}).unwrap()
}

#[test]
fn audio_format_sizes() {
    assert_eq!(AudioFormat::PCM8Mono.size(), 1);
    assert_eq!(AudioFormat::PCM16Mono.size(), 2);
    assert_eq!(AudioFormat::PCM8Stereo.size(), 2);
    assert_eq!(AudioFormat::PCM16Stereo.size(), 4);
    assert_eq!(u16::from(AudioFormat::PCM16Stereo), 6);
    assert_eq!(u32::from(OutputMode::Surround), 2);
    assert_eq!(u32::from(InterpolationType::NoInterpolation), 2);
}

#[test]
fn channels_handed_out_once() {
    let mut counter = ServiceCounter::new();
    let mut ndsp = new_ndsp(&mut counter);
    let c = ndsp.channel(5).unwrap();
    assert_eq!(c.id(), 5);
    assert!(matches!(ndsp.channel(5), Err(NdspError::ChannelAlreadyInUse(5))));
    assert!(ndsp.channel(6).is_ok());
    c.release(&mut ndsp);
    assert!(ndsp.channel(5).is_ok());
    assert!(matches!(ndsp.channel(NUMBER_OF_CHANNELS), Err(NdspError::InvalidChannel(24))));
    assert!(matches!(ndsp.channel(200), Err(NdspError::InvalidChannel(200))));
}

#[test]
fn ndsp_drop_resets_every_channel() {
    let mut counter = ServiceCounter::new();
    let ndsp = new_ndsp(&mut counter);
    let reset = std::cell::Cell::new(0u32);
    assert!(ndsp.drop_with(&mut counter, |_i| reset.set(reset.get() + 1), || {}));
    assert_eq!(reset.get(), 24);
    assert_eq!(counter.count(), 0);
}

#[test]
fn ndsp_error_texts() {
    assert_eq!(
        NdspError::InvalidChannel(30).to_display_string(),
        "audio Channel with ID 30 doesn't exist. Valid channels have an ID between 0 and 23"
    );
    assert_eq!(
        NdspError::ChannelAlreadyInUse(2).to_display_string(),
        "audio Channel with ID 2 is already being used. Drop the other instance if you want to use it here"
    );
    assert_eq!(NdspError::WaveBusy(1).to_display_string(), "the selected Wave is busy playing on channel 1");
    assert_eq!(
        NdspError::SampleCountOutOfBounds(100, 24).to_display_string(),
        "the sample count requested is too big (requested = 100, maximum = 24)"
    );
}

#[test]
fn wave_sample_counts() {
    let mut wave = Wave::new(vec![0u8; 96], AudioFormat::PCM16Stereo, false);
    assert_eq!(wave.sample_count(), 24);
    assert_eq!(wave.status(), Status::Free);
    assert_eq!(wave.format(), AudioFormat::PCM16Stereo);
    assert_eq!(wave.get_buffer().len(), 96);
    assert!(wave.set_sample_count(10).is_ok());
    assert_eq!(wave.sample_count(), 10);
    assert_eq!(wave.set_sample_count(25), Err(NdspError::SampleCountOutOfBounds(25, 24)));
    assert_eq!(wave.sample_count(), 10);
}

#[test]
fn wave_busy_while_queued() {
    let mut counter = ServiceCounter::new();
    let mut ndsp = new_ndsp(&mut counter);
    let mut channel = ndsp.channel(3).unwrap();
    let mut wave = Wave::new(vec![0u8; 10], AudioFormat::PCM8Mono, true);
    assert!(channel.queue_wave(&mut wave).is_ok());
    wave.update_status(1);
    assert_eq!(wave.status(), Status::Queued);
    assert_eq!(channel.queue_wave(&mut wave), Err(NdspError::WaveBusy(3)));
    assert_eq!(wave.set_sample_count(1), Err(NdspError::WaveBusy(3)));
    assert_eq!(wave.channel_to_clear(), Some(3));
    wave.update_status(3);
    assert_eq!(wave.channel_to_clear(), None);
    assert_eq!(Status::try_from(4u8), Err("Invalid Wave Status code"));
    assert_eq!(Status::try_from(2u8), Ok(Status::Playing));
}

#[test]
fn camera_sizes_and_transfers() {
    let mut counter = ServiceCounter::new();
    let mut cam = Cam::new(&mut counter, ok_start, || {}).unwrap();
    assert_eq!(cam.inner_cam.view_size(), ViewSize::TopLCD);
    assert!(!cam.inner_cam.is_trimming());
    assert_eq!(cam.inner_cam.final_view_size(), (400, 240));
    assert_eq!(cam.inner_cam.final_byte_length(), 400 * 240 * 2);
    assert_eq!(cam.both_outer_cams.final_byte_length(), 400 * 240 * 4);
    assert!(matches!(
        cam.inner_cam.check_picture_buffer(10),
        Err(Error::BufferTooShort { provided: 10, wanted: 192000 })
    ));
    let t = cam.both_outer_cams.picture_transfers(400 * 240 * 4).unwrap();
    assert_eq!(
        t,
        vec![
            Transfer { port: PORT_CAM1, offset: 0, len: 192000 },
            Transfer { port: PORT_CAM2, offset: 192000, len: 192000 },
        ]
    );
    let t = cam.outer_left_cam.picture_transfers(192000).unwrap();
    assert_eq!(t, vec![Transfer { port: PORT_CAM1, offset: 0, len: 192000 }]);
    assert_eq!(cam.both_outer_cams.port_as_raw(), PORT_BOTH);
}

#[test]
fn picture_plans_and_waits() {
    let mut counter = ServiceCounter::new();
    let cam = Cam::new(&mut counter, ok_start, || {}).unwrap();
    let both = cam.both_outer_cams.picture_plan(384000).unwrap();
    assert_eq!(both.transfers.len(), 2);
    assert!(both.synchronize_vsync && both.start_before_receiving);
    let one = cam.inner_cam.picture_plan(192000).unwrap();
    assert_eq!(one.transfers, vec![Transfer { port: PORT_CAM1, offset: 0, len: 192000 }]);
    assert!(!one.synchronize_vsync && !one.start_before_receiving);
    assert!(matches!(
        cam.inner_cam.picture_plan(10),
        Err(Error::BufferTooShort { provided: 10, wanted: 192000 })
    ));
    assert!(picture_wait_outcome(&[0, 0]).is_ok());
    assert!(picture_wait_outcome(&[]).is_ok());
    assert!(matches!(picture_wait_outcome(&[0, -5, -7]), Err(Error::Os(-5))));
    assert!(matches!(picture_wait_outcome(&[-7, -5]), Err(Error::Os(-7))));
}

#[test]
fn fresh_camera_byte_lengths() {
    let mut counter = ServiceCounter::new();
    let cam = Cam::new(&mut counter, ok_start, || {}).unwrap();
    assert_eq!(cam.inner_cam.final_byte_length(), 192000);
    assert_eq!(cam.outer_left_cam.final_byte_length(), 192000);
    assert_eq!(cam.both_outer_cams.final_byte_length(), 384000);
    assert!(matches!(Cam::new(&mut counter, ok_start, || {}), Err(Error::ServiceAlreadyActive)));
}

#[test]
fn camera_trimming() {
    let mut counter = ServiceCounter::new();
    let mut cam = Cam::new(&mut counter, ok_start, || {}).unwrap();
    let trim = Trimming::new_centered(64, 64);
    let r = cam.outer_right_cam.set_trimming(trim, |req| {
        assert_eq!(req.port, PORT_CAM1);
        assert!(req.enabled);
        assert_eq!(req.trim_size, (64, 64));
        assert_eq!(req.view_size, (400, 240));
        Ok(())
    });
    assert!(r.is_ok());
    assert!(cam.outer_right_cam.is_trimming());
    assert_eq!(cam.outer_right_cam.final_view_size(), (64, 64));
    assert_eq!(cam.outer_right_cam.final_byte_length(), 64 * 64 * 2);
    let refused = cam.inner_cam.set_trimming(Trimming::new_centered_with_view(ViewSize::BottomLCD), |_| Err(Error::Os(-1)));
    assert!(matches!(refused, Err(Error::Os(-1))));
    assert!(!cam.inner_cam.is_trimming());
    assert_eq!(Trimming::new_centered(400, 240), Trimming::Centered { width: 400, height: 240 });
    assert_eq!(ViewSize::Vga.dimensions(), (640, 480));
    assert_eq!(<(i16, i16)>::from(ViewSize::DSX4), (512, 384));
    assert_eq!(OutputFormat::try_from(FramebufferFormat::Rgb565), Ok(OutputFormat::Rgb565));
    assert_eq!(OutputFormat::try_from(FramebufferFormat::Bgr8), Err(()));
}

#[test]
fn gfx_screens() {
    let mut counter = ServiceCounter::new();
    let mut seen = None;
    let gfx = Gfx::new(&mut counter, |t, b, v| seen = Some((t, b, v)), || {}).unwrap();
    assert_eq!(seen, Some((FramebufferFormat::Bgr8, FramebufferFormat::Bgr8, false)));
    assert!(matches!(Gfx::init(&mut counter, |_, _, _| {}, || {}), Err(Error::ServiceAlreadyActive)));
    assert_eq!(gfx.bottom_screen.as_raw(), GFX_BOTTOM);
    let mut event = None;
    gfx.wait_for_vblank(|e, discard| event = Some((e, discard)));
    assert_eq!(event, Some((Event::VBlank0, true)));
    assert!(gfx.drop_with(&mut counter, || {}));

    let mut top = TopScreen::new();
    let mut three_d = None;
    let mut screen = TopScreen3D::from(&mut top, |on| three_d = Some(on));
    assert_eq!(three_d, Some(true));
    let (left, right) = screen.split();
    assert_eq!((left.as_raw(), left.side()), (GFX_TOP, Side::Left));
    assert_eq!((right.as_raw(), right.side()), (GFX_TOP, Side::Right));
    let (l, r) = screen.split_mut();
    assert_eq!((l.side(), r.side()), (Side::Left, Side::Right));
    screen.release(|on| assert!(!on));
}

#[test]
fn gfx_custom_formats() {
    let mut counter = ServiceCounter::new();
    let mut seen = None;
    let gfx = Gfx::with_configuration(&mut counter, FramebufferFormat::Rgba8, FramebufferFormat::Rgb565, true, |t, b, v| {
        seen = Some((t, b, v))
    }, || {});
    assert!(gfx.is_ok());
    assert_eq!(seen, Some((FramebufferFormat::Rgba8, FramebufferFormat::Rgb565, true)));
}

#[test]
fn camera_view_size_turns_trimming_off() {
    let mut counter = ServiceCounter::new();
    let mut cam = Cam::new(&mut counter, ok_start, || {}).unwrap();
    cam.inner_cam.set_trimming(Trimming::new_centered(64, 64), |_| Ok(())).unwrap();
    let r = cam.inner_cam.set_view_size(ViewSize::Vga, |_, size| {
        assert_eq!(size, ViewSize::Vga);
        Ok(())
    }, |req| {
        assert!(!req.enabled);
        Ok(())
    });
    assert!(r.is_ok());
    assert_eq!(cam.inner_cam.view_size(), ViewSize::Vga);
    assert!(!cam.inner_cam.is_trimming());
    let refused = cam.inner_cam.set_view_size(ViewSize::QQVga, |_, _| Err(Error::Os(-1)), |_| Ok(()));
    assert!(matches!(refused, Err(Error::Os(-1))));
    assert_eq!(cam.inner_cam.view_size(), ViewSize::Vga);
}

#[test]
fn wave_buffer_writable_when_idle() {
    let mut wave = Wave::new(vec![0u8; 4], AudioFormat::PCM8Mono, false);
    wave.get_raw_buffer_mut().unwrap()[1] = 9;
    assert_eq!(wave.get_buffer(), &[0, 9, 0, 0]);
    let mut counter = ServiceCounter::new();
    let mut ndsp = new_ndsp(&mut counter);
    let mut channel = ndsp.channel(0).unwrap();
    channel.queue_wave(&mut wave).unwrap();
    wave.update_status(2);
    assert!(matches!(wave.get_raw_buffer_mut(), Err(NdspError::WaveBusy(0))));
}

#[test]
fn gfx_with_formats() {
    let mut counter = ServiceCounter::new();
    let mut seen = None;
    let gfx = Gfx::with_formats(&mut counter, FramebufferFormat::Rgb565, FramebufferFormat::Rgba4, false, |t, b, v| {
        seen = Some((t, b, v))
    }, || {});
    assert!(gfx.is_ok());
    assert_eq!(seen, Some((FramebufferFormat::Rgb565, FramebufferFormat::Rgba4, false)));
}
