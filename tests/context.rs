use catalina::context::first_supporting;
use catalina::{
    select_format, AlphaMode, BinHeader, BlockOn, ColorFormat, DeviceStep, Error,
    ExecutorStep, PollState, PresentMode, RenderContext, SurfaceConfig,
};

fn pool_with(devices: &[&'static str]) -> RenderContext<(), &'static str> {
    let mut ctx = RenderContext::new(());
    for d in devices {
        ctx.add_device(Some(*d));
    }
    ctx
}

#[test]
fn empty_pool_creates_first_device() {
    let mut ctx = pool_with(&[]);
    let supported: Vec<bool> = vec![];
    assert_eq!(ctx.find_device(Some(&supported)), DeviceStep::Create);
    let dev_id = ctx.add_device(Some("gpu0"));
    assert_eq!(dev_id, Some(0));
    assert_eq!(ctx.devices.len(), 1);
    let formats = vec![ColorFormat::Rgba16Float, ColorFormat::Bgra8Unorm, ColorFormat::Rgba8Unorm];
    let s = ctx
        .create_render_surface("surfaceA", dev_id, &formats, 800, 600, PresentMode::Fifo)
        .unwrap();
    assert_eq!(s.dev_id, 0);
    assert_eq!(s.format, ColorFormat::Bgra8Unorm);
    assert!(matches!(s.format, ColorFormat::Rgba8Unorm | ColorFormat::Bgra8Unorm));
    assert_eq!(s.config.width, 800);
    assert_eq!(s.config.height, 600);
    assert_eq!(s.config.present_mode, PresentMode::Fifo);
    assert_eq!(s.config.desired_maximum_frame_latency, 2);
    assert_eq!(s.config.alpha_mode, AlphaMode::Auto);
    assert_eq!(s.config.format, s.format);
    assert_eq!(s.surface, "surfaceA");
}

#[test]
fn existing_compatible_device_is_reused() {
    let ctx = pool_with(&["gpu0", "gpu1", "gpu2"]);
    let supported = vec![false, true, true];
    let step = ctx.find_device(Some(&supported));
    assert_eq!(step, DeviceStep::Use(1));
    assert_eq!(ctx.devices.len(), 3);
    let s = ctx
        .create_render_surface(
            "surfaceB",
            Some(1),
            &vec![ColorFormat::Rgba8Unorm],
            1024,
            768,
            PresentMode::Mailbox,
        )
        .unwrap();
    assert_eq!(s.dev_id, 1);
    assert_eq!(s.config.present_mode, PresentMode::Mailbox);
    assert_eq!(ctx.devices.len(), 3);
}

#[test]
fn repeated_requests_for_one_surface_keep_one_device() {
    let mut ctx = pool_with(&[]);
    assert_eq!(ctx.find_device(Some(&vec![])), DeviceStep::Create);
    assert_eq!(ctx.add_device(Some("gpu0")), Some(0));
    for _ in 0..3 {
        assert_eq!(ctx.find_device(Some(&vec![true])), DeviceStep::Use(0));
        assert_eq!(ctx.devices.len(), 1);
    }
}

#[test]
fn incompatible_pool_grows_by_one() {
    let mut ctx = pool_with(&["gpu0"]);
    assert_eq!(ctx.find_device(Some(&vec![false])), DeviceStep::Create);
    assert_eq!(ctx.add_device(Some("gpu1")), Some(1));
    assert_eq!(ctx.find_device(Some(&vec![false, true])), DeviceStep::Use(1));
    assert_eq!(ctx.devices, vec!["gpu0", "gpu1"]);
}

#[test]
fn default_device_without_surface() {
    assert_eq!(pool_with(&[]).find_device(None), DeviceStep::Create);
    assert_eq!(pool_with(&["a", "b"]).find_device(None), DeviceStep::Use(0));
}

#[test]
fn no_adapter_gives_no_compatible_device() {
    let mut ctx = pool_with(&[]);
    assert_eq!(ctx.find_device(Some(&vec![])), DeviceStep::Create);
    let dev_id = ctx.add_device(None);
    assert_eq!(dev_id, None);
    assert_eq!(ctx.devices.len(), 0);
    let r = ctx.create_render_surface("s", dev_id, &vec![], 800, 600, PresentMode::Fifo);
    assert_eq!(r.err(), Some(Error::NoCompatibleDevice));
}

#[test]
fn format_selection_prefers_first_listed() {
    let a = vec![ColorFormat::Rgba8Unorm, ColorFormat::Bgra8Unorm];
    let b = vec![ColorFormat::Bgra8Unorm, ColorFormat::Rgba8Unorm];
    assert_eq!(select_format(&a), Ok(ColorFormat::Rgba8Unorm));
    assert_eq!(select_format(&b), Ok(ColorFormat::Bgra8Unorm));
    assert_eq!(select_format(&a), select_format(&a));
    let c = vec![ColorFormat::Bgra8UnormSrgb, ColorFormat::Rgba8Unorm];
    assert_eq!(select_format(&c), Ok(ColorFormat::Rgba8Unorm));
}

#[test]
fn only_non_matching_formats_are_unsupported() {
    let f = vec![
        ColorFormat::Rgba8UnormSrgb,
        ColorFormat::Bgra8UnormSrgb,
        ColorFormat::Rgba16Float,
        ColorFormat::Rgb10a2Unorm,
        ColorFormat::Other,
    ];
    assert_eq!(select_format(&f), Err(Error::UnsupportedSurfaceFormat));
    assert_eq!(select_format(&vec![]), Err(Error::UnsupportedSurfaceFormat));
    let ctx = pool_with(&["gpu0"]);
    let r = ctx.create_render_surface("s", Some(0), &f, 800, 600, PresentMode::Fifo);
    assert_eq!(r.err(), Some(Error::UnsupportedSurfaceFormat));
}

#[test]
fn resize_keeps_format_and_device() {
    let ctx = pool_with(&["gpu0", "gpu1"]);
    let mut s = ctx
        .create_render_surface("s", Some(1), &vec![ColorFormat::Bgra8Unorm], 800, 600, PresentMode::Fifo)
        .unwrap();
    ctx.resize_surface(&mut s, 1920, 1080);
    assert_eq!(s.config.width, 1920);
    assert_eq!(s.config.height, 1080);
    assert_eq!(s.format, ColorFormat::Bgra8Unorm);
    assert_eq!(s.config.format, ColorFormat::Bgra8Unorm);
    assert_eq!(s.dev_id, 1);
    assert_eq!(s.config.present_mode, PresentMode::Fifo);
    assert_eq!(*ctx.device_of(&s), "gpu1");
}

#[test]
fn present_mode_change_keeps_size_and_format() {
    let ctx = pool_with(&["gpu0"]);
    let mut s = ctx
        .create_render_surface("s", Some(0), &vec![ColorFormat::Rgba8Unorm], 640, 480, PresentMode::Fifo)
        .unwrap();
    ctx.set_present_mode(&mut s, PresentMode::Immediate);
    assert_eq!(s.config.present_mode, PresentMode::Immediate);
    assert_eq!(s.config.width, 640);
    assert_eq!(s.config.height, 480);
    assert_eq!(s.format, ColorFormat::Rgba8Unorm);
    assert_eq!(s.dev_id, 0);
}

#[test]
fn surface_config_defaults() {
    let c = SurfaceConfig::new(ColorFormat::Rgba8Unorm, 3, 4, PresentMode::AutoVsync);
    assert_eq!(c.desired_maximum_frame_latency, 2);
    assert_eq!(c.alpha_mode, AlphaMode::Auto);
    assert_eq!((c.width, c.height), (3, 4));
}

#[test]
fn first_supporting_index() {
    assert_eq!(first_supporting(&vec![]), None);
    assert_eq!(first_supporting(&vec![false, false]), None);
    assert_eq!(first_supporting(&vec![false, true, true]), Some(1));
}

#[test]
fn block_on_waits_for_second_signal() {
    let mut ex = BlockOn::new();
    let mut signals: u32 = 0;
    let out = loop {
        let p = if signals >= 2 { PollState::Ready(42u32) } else { PollState::Pending };
        match ex.on_poll(p) {
            ExecutorStep::WaitForDevice => signals += 1,
            ExecutorStep::Finish(v) => break v,
        }
    };
    assert_eq!(out, 42);
    assert_eq!(signals, 2);
    assert_eq!(ex.polls, 3);
    assert_eq!(ex.device_waits, 2);
}

#[test]
fn block_on_ready_at_once() {
    let mut ex = BlockOn::new();
    assert_eq!(ex.on_poll(PollState::Ready("done")), ExecutorStep::Finish("done"));
    assert_eq!(ex.device_waits, 0);
    assert_eq!(ex.polls, 1);
}

#[test]
fn bin_header_default_is_zero() {
    let h = BinHeader::default();
    assert_eq!((h.element_count, h.chunk_offset), (0, 0));
}
