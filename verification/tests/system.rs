use bevy_pixels::{
    create_pixels, resize_buffer, window_change, window_resize, CreateError, Creation, Extent,
    PixelsOptions, PixelsWrapper, PresentMode, Resized, Scalar, Window,
};

fn scalar(x: f32) -> Scalar {
    Scalar::from_bits(x.to_bits())
}

fn options(width: u32, height: u32, scale: f32, buffer: bool, surface: bool) -> PixelsOptions {
    PixelsOptions {
        width,
        height,
        scale_factor: scalar(scale),
        auto_resize_buffer: buffer,
        auto_resize_surface: surface,
    }
}

fn window(width: f32, height: f32, physical_width: u32, physical_height: u32) -> Window {
    Window {
        width: scalar(width),
        height: scalar(height),
        physical_width,
        physical_height,
        present_mode: PresentMode::Fifo,
    }
}

fn record(buffer: (u32, u32), surface: (u32, u32)) -> PixelsWrapper {
    PixelsWrapper {
        buffer: Extent { width: buffer.0, height: buffer.1 },
        surface: Extent { width: surface.0, height: surface.1 },
        present_mode: PresentMode::Fifo,
    }
}

/// Takes a resize in the way an application does, with the outcomes given.
fn deliver_resize(
    o: &mut PixelsOptions,
    r: &mut PixelsWrapper,
    w: &Window,
    surface_accepted: bool,
    buffer_accepted: bool,
) -> (Resized, Option<Extent>) {
    let resized = window_resize(o, w);
    if let Some(size) = resized.surface {
        r.resize_surface(size, surface_accepted);
    }
    let mut buffer = None;
    if resized.options_written {
        buffer = resize_buffer(o);
        if let Some(size) = buffer {
            r.resize_buffer(size, buffer_accepted);
        }
    }
    (resized, buffer)
}

#[test]
fn default_options() {
    let o = PixelsOptions::default();
    assert_eq!(o.width, 1280);
    assert_eq!(o.height, 720);
    assert_eq!(f32::from_bits(o.scale_factor.to_bits()), 1.0);
    assert!(o.auto_resize_buffer);
    assert!(o.auto_resize_surface);
}

#[test]
fn resize_halves_window_at_scale_two() {
    let mut o = options(1280, 720, 2.0, true, true);
    let mut r = record((1280, 720), (1280, 720));
    let w = window(640.0, 360.0, 1280, 720);
    let (resized, buffer) = deliver_resize(&mut o, &mut r, &w, true, true);
    assert_eq!(o.width, 320);
    assert_eq!(o.height, 180);
    assert!(resized.options_written);
    assert_eq!(buffer, Some(Extent { width: 320, height: 180 }));
    assert_eq!(r.buffer, Extent { width: 320, height: 180 });
    assert_eq!(resized.surface, Some(Extent { width: 1280, height: 720 }));
}

#[test]
fn resize_at_default_options_takes_window_size() {
    let mut o = PixelsOptions::default();
    let w = window(800.0, 600.0, 1600, 1200);
    let resized = window_resize(&mut o, &w);
    assert_eq!((o.width, o.height), (800, 600));
    assert_eq!(resized.surface, Some(Extent { width: 1600, height: 1200 }));
    assert_eq!(resize_buffer(&o), Some(Extent { width: 800, height: 600 }));
}

#[test]
fn resize_rounds_down() {
    let mut o = options(1, 1, 3.0, true, false);
    let w = window(1000.0, 500.0, 1000, 500);
    window_resize(&mut o, &w);
    assert_eq!((o.width, o.height), (333, 166));
    let mut o = options(1, 1, 1.5, true, false);
    let w = window(100.0, 101.0, 100, 101);
    window_resize(&mut o, &w);
    assert_eq!((o.width, o.height), (66, 67));
}

#[test]
fn resize_keeps_other_fields() {
    let mut o = options(10, 20, 4.0, true, false);
    let w = window(400.0, 200.0, 400, 200);
    window_resize(&mut o, &w);
    assert_eq!(o, options(100, 50, 4.0, true, false));
}

#[test]
fn fixed_buffer_is_left_alone() {
    let mut o = options(320, 240, 2.0, false, true);
    let mut r = record((320, 240), (640, 480));
    for (lw, lh, pw, ph) in [(640.0, 480.0, 640, 480), (10.0, 10.0, 20, 20), (0.0, 0.0, 0, 0)] {
        let w = window(lw, lh, pw, ph);
        let (resized, buffer) = deliver_resize(&mut o, &mut r, &w, true, true);
        assert_eq!(o, options(320, 240, 2.0, false, true));
        assert!(!resized.options_written);
        assert_eq!(buffer, None);
        assert_eq!(resize_buffer(&o), None);
        assert_eq!(r.buffer, Extent { width: 320, height: 240 });
    }
}

#[test]
fn fixed_surface_is_left_alone_on_scale_change() {
    let o = options(320, 240, 2.0, true, false);
    let r = record((320, 240), (640, 480));
    for (pw, ph) in [(1280, 960), (1, 1), (0, 0), (u32::MAX, u32::MAX)] {
        let w = window(640.0, 480.0, pw, ph);
        assert_eq!(window_change(&o, &w), None);
    }
    assert_eq!(r.surface, Extent { width: 640, height: 480 });
}

#[test]
fn fixed_surface_is_left_alone_on_resize() {
    let mut o = options(320, 240, 2.0, true, false);
    let mut r = record((320, 240), (640, 480));
    let w = window(1000.0, 500.0, 2000, 1000);
    let (resized, _) = deliver_resize(&mut o, &mut r, &w, true, true);
    assert_eq!(resized.surface, None);
    assert_eq!(r.surface, Extent { width: 640, height: 480 });
    assert_eq!(r.buffer, Extent { width: 500, height: 250 });
}

#[test]
fn same_resize_twice_is_as_once() {
    for (buffer, surface) in [(true, true), (true, false), (false, true), (false, false)] {
        for (sa, ba) in [(true, true), (true, false), (false, true), (false, false)] {
            let w = window(640.0, 360.0, 1280, 720);
            let mut once_o = options(100, 100, 2.0, buffer, surface);
            let mut once_r = record((100, 100), (100, 100));
            let first = deliver_resize(&mut once_o, &mut once_r, &w, sa, ba);
            let mut twice_o = once_o;
            let mut twice_r = once_r;
            let second = deliver_resize(&mut twice_o, &mut twice_r, &w, sa, ba);
            assert_eq!(twice_o, once_o);
            assert_eq!(twice_r, once_r);
            assert_eq!(second, first);
        }
    }
}

#[test]
fn scale_change_resizes_surface_only() {
    let o = options(320, 180, 2.0, true, true);
    let mut r = record((320, 180), (640, 360));
    let w = window(640.0, 360.0, 1280, 720);
    let request = window_change(&o, &w);
    assert_eq!(request, Some(Extent { width: 1280, height: 720 }));
    r.resize_surface(request.unwrap(), true);
    assert_eq!(r.surface, Extent { width: 1280, height: 720 });
    assert_eq!(r.buffer, Extent { width: 320, height: 180 });
    assert_eq!(o, options(320, 180, 2.0, true, true));
}

#[test]
fn scale_change_ignores_logical_size() {
    let o = options(320, 180, 2.0, true, true);
    let w = window(f32::NAN, -1.0, 300, 200);
    assert_eq!(window_change(&o, &w), Some(Extent { width: 300, height: 200 }));
}

#[test]
fn refused_request_leaves_record() {
    let mut r = record((320, 180), (640, 360));
    r.resize_surface(Extent { width: 100_000, height: 720 }, false);
    assert_eq!(r, record((320, 180), (640, 360)));
    r.resize_buffer(Extent { width: 100_000, height: 720 }, false);
    assert_eq!(r, record((320, 180), (640, 360)));
}

#[test]
fn taken_request_is_recorded() {
    let mut r = record((320, 180), (640, 360));
    r.resize_surface(Extent { width: 800, height: 600 }, true);
    assert_eq!(r, record((320, 180), (800, 600)));
    r.resize_buffer(Extent { width: 400, height: 300 }, true);
    assert_eq!(r, record((400, 300), (800, 600)));
}

#[test]
fn zero_size_is_never_recorded() {
    let mut r = record((320, 180), (640, 360));
    r.resize_surface(Extent { width: 0, height: 600 }, true);
    r.resize_surface(Extent { width: 800, height: 0 }, true);
    r.resize_buffer(Extent { width: 0, height: 0 }, true);
    assert_eq!(r, record((320, 180), (640, 360)));
}

#[test]
fn window_smaller_than_scale_asks_for_nothing_usable() {
    let mut o = options(320, 180, 8.0, true, true);
    let mut r = record((320, 180), (640, 360));
    let w = window(4.0, 4.0, 8, 8);
    let (_, buffer) = deliver_resize(&mut o, &mut r, &w, true, false);
    assert_eq!((o.width, o.height), (0, 0));
    assert_eq!(buffer, Some(Extent { width: 0, height: 0 }));
    assert_eq!(r.buffer, Extent { width: 320, height: 180 });
    assert_eq!(r.surface, Extent { width: 8, height: 8 });
}

#[test]
fn burst_of_resizes_gives_burst_of_requests() {
    let mut o = options(1, 1, 1.0, true, true);
    let mut r = record((1, 1), (1, 1));
    let mut requests = 0;
    for step in 1..=5u32 {
        let w = window(100.0 * step as f32, 50.0 * step as f32, 100 * step, 50 * step);
        let (resized, buffer) = deliver_resize(&mut o, &mut r, &w, true, true);
        assert_eq!(resized.surface, Some(Extent { width: 100 * step, height: 50 * step }));
        assert_eq!(buffer, Some(Extent { width: 100 * step, height: 50 * step }));
        requests += 2;
    }
    assert_eq!(requests, 10);
    assert_eq!(r, record((500, 250), (500, 250)));
}

#[test]
fn resize_buffer_asks_for_what_options_hold() {
    assert_eq!(
        resize_buffer(&options(123, 45, 2.0, true, false)),
        Some(Extent { width: 123, height: 45 })
    );
    assert_eq!(resize_buffer(&options(123, 45, 2.0, false, true)), None);
}

#[test]
fn extent_positive() {
    assert!(Extent { width: 1, height: 1 }.is_positive());
    assert!(!Extent { width: 0, height: 1 }.is_positive());
    assert!(!Extent { width: 1, height: 0 }.is_positive());
}

#[test]
fn create_builds_from_options_and_inner_size() {
    let o = options(320, 240, 2.0, true, true);
    let mut w = window(640.0, 480.0, 640, 480);
    w.present_mode = PresentMode::Mailbox;
    let size = Some(Extent { width: 1280, height: 960 });
    assert_eq!(
        create_pixels(&o, &w, size, true, false),
        Creation::Build(PixelsWrapper {
            buffer: Extent { width: 320, height: 240 },
            surface: Extent { width: 1280, height: 960 },
            present_mode: PresentMode::Mailbox,
        })
    );
}

#[test]
fn create_keeps_each_present_mode() {
    let o = PixelsOptions::default();
    for mode in [
        PresentMode::AutoVsync,
        PresentMode::AutoNoVsync,
        PresentMode::Fifo,
        PresentMode::FifoRelaxed,
        PresentMode::Immediate,
        PresentMode::Mailbox,
    ] {
        let mut w = window(1280.0, 720.0, 1280, 720);
        w.present_mode = mode;
        match create_pixels(&o, &w, Some(Extent { width: 1280, height: 720 }), true, false) {
            Creation::Build(built) => assert_eq!(built.present_mode, mode),
            other => panic!("{:?}", other),
        }
    }
}

#[test]
fn create_takes_inner_size_not_window_size() {
    let o = PixelsOptions::default();
    let w = window(1280.0, 720.0, 1, 1);
    match create_pixels(&o, &w, Some(Extent { width: 2560, height: 1440 }), true, false) {
        Creation::Build(built) => {
            assert_eq!(built.surface, Extent { width: 2560, height: 1440 });
            assert_eq!(built.buffer, Extent { width: 1280, height: 720 });
        }
        other => panic!("{:?}", other),
    }
}

#[test]
fn create_waits_for_handle() {
    let o = PixelsOptions::default();
    let w = window(1280.0, 720.0, 1280, 720);
    let size = Some(Extent { width: 1280, height: 720 });
    assert_eq!(create_pixels(&o, &w, size, false, false), Creation::Skip);
    assert_eq!(create_pixels(&o, &w, None, false, false), Creation::Skip);
}

#[test]
fn create_makes_one_buffer_per_window() {
    let o = PixelsOptions::default();
    let w = window(1280.0, 720.0, 1280, 720);
    let size = Some(Extent { width: 1280, height: 720 });
    assert_eq!(create_pixels(&o, &w, size, true, true), Creation::Skip);
    assert_eq!(create_pixels(&o, &w, size, false, true), Creation::Skip);
    assert_eq!(create_pixels(&o, &w, None, true, true), Creation::Skip);
    assert_eq!(
        create_pixels(&options(0, 0, 1.0, true, true), &w, Some(Extent { width: 0, height: 0 }), true, true),
        Creation::Skip
    );
}

#[test]
fn create_fails_without_backend_window() {
    let w = window(1280.0, 720.0, 1280, 720);
    assert_eq!(
        create_pixels(&PixelsOptions::default(), &w, None, true, false),
        Creation::Fail(CreateError::NoBackendWindow)
    );
    assert_eq!(
        create_pixels(&options(0, 0, 1.0, true, true), &w, None, true, false),
        Creation::Fail(CreateError::NoBackendWindow)
    );
}

#[test]
fn create_fails_on_zero_sizes() {
    let w = window(1280.0, 720.0, 1280, 720);
    let size = Some(Extent { width: 1280, height: 720 });
    let good = PixelsOptions::default();
    let create = |o: &PixelsOptions, size: Option<Extent>| create_pixels(o, &w, size, true, false);
    assert_eq!(
        create(&good, Some(Extent { width: 0, height: 720 })),
        Creation::Fail(CreateError::EmptySurface)
    );
    assert_eq!(
        create(&good, Some(Extent { width: 1280, height: 0 })),
        Creation::Fail(CreateError::EmptySurface)
    );
    assert_eq!(
        create(&options(0, 720, 1.0, true, true), size),
        Creation::Fail(CreateError::EmptyBuffer)
    );
    assert_eq!(
        create(&options(1280, 0, 1.0, true, true), size),
        Creation::Fail(CreateError::EmptyBuffer)
    );
    assert_eq!(
        create(&options(0, 0, 1.0, true, true), Some(Extent { width: 0, height: 0 })),
        Creation::Fail(CreateError::EmptySurface)
    );
    assert_eq!(
        create(&options(1, 1, 1.0, true, true), Some(Extent { width: 1, height: 1 })),
        Creation::Build(PixelsWrapper {
            buffer: Extent { width: 1, height: 1 },
            surface: Extent { width: 1, height: 1 },
            present_mode: PresentMode::Fifo,
        })
    );
}
