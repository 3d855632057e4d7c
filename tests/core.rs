use fract::config::{check_output, validate, ConfigError, OutputKind};
use fract::layout::{
    counter_from_le_bytes, needs_tiling, output_buffer_bytes_per_row_and_size, pixel_state_bytes, resolve_sources,
    ssaa_factor, strip_row_padding, tile_count, tile_span, unit_offset, workgroups,
};
use fract::number::{float_from_str, view_precision};
use fract::orbit::{record_scale, RecordScale, ReferenceOrbit, SeriesState};
use fract::palette::{classic, inferno, lava, magma, ocean, turbo, viridis, palette_name, palette_slots, palette_table, parse_palette, PaletteName, Rgb8};
use fract::pixel::{
    advance, count_active, settle, shade, start, wants_iteration, Magnitude, PixelCounters, PixelStatus, Shade,
    Step,
};
use fract::precision::{literal_precision, raise_precision, required_precision};
use fract::scheduler::{batch_bound, recover, DispatchMode, DispatchOutcome, Recovery, Scheduler, StepPlan};
use fract::xef::{common_scale, product_exponent, validity_bound_exponent, CommonScale, ProductExponent};

#[test]
fn output_buffer_rows_are_padded_to_256_bytes() {
    assert_eq!(output_buffer_bytes_per_row_and_size(800, 800), (3328, 3328 * 800));
    assert_eq!(output_buffer_bytes_per_row_and_size(64, 3), (256, 768));
    assert_eq!(output_buffer_bytes_per_row_and_size(65, 1), (512, 512));
    assert_eq!(output_buffer_bytes_per_row_and_size(0, 5), (0, 0));
}

#[test]
fn padding_is_stripped_row_by_row() {
    let mut padded = vec![0u8; 512];
    for i in 0..8 {
        padded[i] = i as u8 + 1;
        padded[256 + i] = i as u8 + 101;
    }
    padded[8] = 77;
    let out = strip_row_padding(&padded, 2, 2, 256);
    assert_eq!(out, vec![1, 2, 3, 4, 5, 6, 7, 8, 101, 102, 103, 104, 105, 106, 107, 108]);
}

#[test]
fn tiles_cover_the_target() {
    assert_eq!(tile_count(800), 13);
    assert_eq!(tile_count(64), 1);
    assert_eq!(tile_span(0, 800), (0, 64));
    assert_eq!(tile_span(12, 800), (768, 32));
    assert_eq!(workgroups(1600), 100);
    assert_eq!(workgroups(17), 2);
    assert!(needs_tiling(60_000, 100, 100, false));
    assert!(!needs_tiling(1000, 800, 800, true));
    assert!(needs_tiling(1000, 1000, 1000, true));
    assert!(needs_tiling(1000, 2560, 1440, false));
}

#[test]
fn counter_reads_little_endian() {
    assert_eq!(counter_from_le_bytes([1, 2, 0, 0]), 513);
    assert_eq!(counter_from_le_bytes([0xff, 0xff, 0xff, 0xff]), u32::MAX);
}

#[test]
fn unit_offsets_are_pixel_centres() {
    assert_eq!(unit_offset(0, 800), (-799, 800));
    assert_eq!(unit_offset(799, 800), (799, 800));
    assert_eq!(unit_offset(0, 1), (0, 1));
}

#[test]
fn ssaa_resolve_averages_a_square_of_samples() {
    assert_eq!(ssaa_factor(true), 2);
    assert_eq!(ssaa_factor(false), 1);
    assert_eq!(resolve_sources(1, 1, 4, 4, 2), vec![18, 19, 26, 27]);
    assert_eq!(resolve_sources(0, 0, 4, 4, 2), vec![0, 1, 8, 9]);
}

#[test]
fn ssaa_factor_one_is_a_pass_through() {
    for y in 0..3u32 {
        for x in 0..5u32 {
            assert_eq!(resolve_sources(x, y, 5, 3, 1), vec![(y * 5 + x) as u64]);
        }
    }
}

#[test]
fn palettes_resolve_by_name() {
    assert_eq!(palette_name("classic"), Ok(PaletteName::Classic));
    assert_eq!(palette_name("lava"), Ok(PaletteName::Lava));
    assert_eq!(palette_name("ocean"), Ok(PaletteName::Ocean));
    assert_eq!(palette_name("magma"), Ok(PaletteName::Magma));
    assert_eq!(palette_name("viridis"), Ok(PaletteName::Viridis));
    assert_eq!(palette_name("inferno"), Ok(PaletteName::Inferno));
    assert_eq!(palette_name("turbo"), Ok(PaletteName::Turbo));
    assert_eq!(palette_name("plasma"), Err(ConfigError::UnknownPalette));
    assert_eq!(palette_name("Classic"), Err(ConfigError::UnknownPalette));
    assert_eq!(palette_name(""), Err(ConfigError::UnknownPalette));
    let c = parse_palette("classic").unwrap();
    assert_eq!(c.len(), 16);
    assert_eq!(c[0], Rgb8 { r: 139, g: 96, b: 69 });
    assert_eq!(c[15], Rgb8 { r: 173, g: 125, b: 28 });
    assert_eq!(parse_palette("nope"), Err(ConfigError::UnknownPalette));
    assert_eq!(classic().len(), 16);
    assert_eq!(lava().len(), 24);
    assert_eq!(ocean().len(), 18);
    assert_eq!(lava()[12], Rgb8 { r: 255, g: 255, b: 255 });
    assert_eq!(ocean()[0], Rgb8 { r: 0, g: 0, b: 124 });
    assert_eq!(magma().len(), 16);
    assert_eq!(magma()[0], Rgb8 { r: 0, g: 0, b: 0 });
    assert_eq!(magma()[15], Rgb8 { r: 254, g: 249, b: 186 });
    assert_eq!(viridis()[15], Rgb8 { r: 252, g: 231, b: 33 });
    assert_eq!(inferno().len(), 16);
    assert_eq!(turbo().len(), 16);
    assert_eq!(parse_palette("turbo").unwrap(), turbo());
    assert_eq!(palette_table(PaletteName::Lava), lava());
}

#[test]
fn palette_slots_wrap() {
    assert_eq!(palette_slots(0, 16), (0, 1));
    assert_eq!(palette_slots(15, 16), (15, 0));
    assert_eq!(palette_slots(17, 16), (1, 2));
    assert_eq!(palette_slots(-1, 16), (15, 0));
    assert_eq!(palette_slots(-16, 16), (0, 1));
    assert_eq!(palette_slots(0, 1), (0, 0));
    for k in -40i64..40 {
        for j in -3i64..3 {
            assert_eq!(palette_slots(k + j * 24, 24), palette_slots(k, 24));
        }
    }
}

#[test]
fn literal_precision_counts_digits_and_exponent() {
    assert_eq!(literal_precision("-0.5"), Ok(53));
    assert_eq!(literal_precision("2.0"), Ok(53));
    assert_eq!(
        literal_precision("-0.69550855300283617401720624898076838918553513221840"),
        Ok(186)
    );
    assert_eq!(
        literal_precision("0.36821253719040156918882966036467425177521358016978"),
        Ok(186)
    );
    assert_eq!(
        literal_precision("4.9369960548568338955566401331513647338919005732326e-5"),
        Ok(199)
    );
    assert_eq!(literal_precision("1e-3000"), Ok(9986));
    assert_eq!(literal_precision("1e+3"), Ok(53));
    assert_eq!(literal_precision(""), Ok(53));
}

#[test]
fn malformed_exponents_are_refused() {
    assert_eq!(literal_precision("1e"), Err(ConfigError::MalformedDecimal));
    assert_eq!(literal_precision("1e-"), Err(ConfigError::MalformedDecimal));
    assert_eq!(literal_precision("1e5x"), Err(ConfigError::MalformedDecimal));
    assert_eq!(literal_precision("1e99999999999"), Err(ConfigError::MalformedDecimal));
    assert_eq!(literal_precision("1e2147483648"), Err(ConfigError::MalformedDecimal));
    assert_eq!(literal_precision("1e-2147483648"), Ok(7_133_940_698));
}

#[test]
fn working_precision_follows_the_view_scale() {
    assert_eq!(required_precision(Some(-100), Some(3), Some(-7)), 171);
    assert_eq!(required_precision(None, None, None), 64);
    assert_eq!(required_precision(Some(1), Some(0), Some(0)), 65);
    assert_eq!(raise_precision(200, Some(-100), Some(3), Some(-7)), 200);
    assert_eq!(raise_precision(100, Some(-100), Some(3), Some(-7)), 171);
}

#[test]
fn whole_set_configuration_is_accepted() {
    let s = validate(1000, 800, 800, false, 1000, "classic").unwrap();
    assert_eq!(s.iterations, 1000);
    assert_eq!(s.ssaa_factor, 1);
    assert_eq!(s.palette, PaletteName::Classic);
    let s = validate(1000, 256, 256, true, 100, "lava").unwrap();
    assert_eq!(s.ssaa_factor, 2);
    assert_eq!(s.batch_iter, 100);
}

#[test]
fn configuration_errors() {
    assert_eq!(validate(1000, 800, 800, false, 1000, "plasma"), Err(ConfigError::UnknownPalette));
    assert!(validate(1000, 800, 800, false, 1000, "magma").is_ok());
    assert_eq!(validate(0, 800, 800, false, 1000, "classic"), Err(ConfigError::ZeroIterations));
    assert_eq!(validate(10, 0, 800, false, 1000, "classic"), Err(ConfigError::ZeroDimension));
    assert_eq!(validate(10, 800, 0, false, 1000, "classic"), Err(ConfigError::ZeroDimension));
    assert_eq!(validate(10, 800, 800, false, 0, "classic"), Err(ConfigError::ZeroBatch));
    assert_eq!(validate(1 << 31, 800, 800, false, 10, "classic"), Err(ConfigError::TooLarge));
    assert_eq!(validate(10, 70_000, 70_000, false, 10, "classic"), Err(ConfigError::TooLarge));
    assert_eq!(validate(10, 40_000, 40_000, true, 10, "classic"), Err(ConfigError::TooLarge));
    assert!(validate(10, 40_000, 40_000, false, 10, "classic").is_ok());
}

#[test]
fn output_requests() {
    assert_eq!(check_output(1, "out.png"), Ok(OutputKind::Png));
    assert_eq!(check_output(30, "out.mp4"), Ok(OutputKind::Mp4));
    assert_eq!(check_output(1, "out.jpg"), Err(ConfigError::UnsupportedOutput));
    assert_eq!(check_output(1, "out.PNG"), Err(ConfigError::UnsupportedOutput));
    assert_eq!(check_output(0, "out.png"), Err(ConfigError::ZeroFrames));
    assert_eq!(check_output(1, "out.mp4"), Err(ConfigError::InvalidImageFormat));
    assert_eq!(check_output(2, "out.png"), Err(ConfigError::InvalidVideoFormat));
    assert_eq!(check_output(1, "png"), Err(ConfigError::UnsupportedOutput));
}

#[test]
fn record_scales_share_the_larger_exponent() {
    assert_eq!(record_scale(Some(3), Some(-2)), RecordScale::Scaled { scale: 3, x_shift: 0, y_shift: 5 });
    assert_eq!(record_scale(None, None), RecordScale::Scaled { scale: 0, x_shift: 0, y_shift: 0 });
    assert_eq!(
        record_scale(Some(-20_000), None),
        RecordScale::Scaled { scale: 0, x_shift: 20_000, y_shift: 0 }
    );
    assert_eq!(record_scale(Some(-20_000), Some(-10_001)), RecordScale::Zero);
    assert_eq!(
        record_scale(Some(-20_000), Some(-10_000)),
        RecordScale::Scaled { scale: -10_000, x_shift: 10_000, y_shift: 0 }
    );
}

#[test]
fn reference_orbit_stops_at_cap_plus_one() {
    let mut o = ReferenceOrbit::new(3);
    assert_eq!(o.len(), 1);
    assert_eq!(o.scale(0), 0);
    let mut pushed = 0;
    while o.wants_next() {
        o.push(Some(-1), Some(-2), false);
        pushed += 1;
    }
    assert_eq!(pushed, 3);
    assert_eq!(o.len(), 4);
    assert_eq!(o.scale(3), -1);
}

#[test]
fn reference_orbit_stops_after_escape() {
    let mut o = ReferenceOrbit::new(1000);
    o.push(Some(0), Some(-1), false);
    assert!(o.wants_next());
    o.push(Some(3), Some(2), true);
    assert!(!o.wants_next());
    assert_eq!(o.len(), 3);
}

#[test]
fn series_failure_is_permanent() {
    let mut s = SeriesState::new();
    assert!(s.observe(0, false));
    assert_eq!(s.polylim, 0);
    assert!(s.observe(1, true));
    assert!(s.observe(2, true));
    assert_eq!(s.polylim, 2);
    assert!(!s.observe(3, false));
    assert!(s.failed);
    assert!(!s.observe(4, true));
    assert_eq!(s.polylim, 2);
}

#[test]
fn perturbation_steps() {
    let c = start(5);
    assert_eq!(c, PixelCounters { ref_iteration: 5, iteration: 5, status: PixelStatus::Active });
    let (d, s) = advance(&c, Magnitude::Bounded, 10, 100);
    assert_eq!(s, Step::Continue);
    assert_eq!(d, PixelCounters { ref_iteration: 6, iteration: 6, status: PixelStatus::Active });
    let (d, s) = advance(&c, Magnitude::BelowDelta, 10, 100);
    assert_eq!(s, Step::Rebase);
    assert_eq!(d, PixelCounters { ref_iteration: 0, iteration: 6, status: PixelStatus::Active });
    let last = PixelCounters { ref_iteration: 8, iteration: 40, status: PixelStatus::Active };
    let (d, s) = advance(&last, Magnitude::Bounded, 10, 100);
    assert_eq!(s, Step::Rebase);
    assert_eq!(d.ref_iteration, 0);
    assert_eq!(d.iteration, 41);
    let (d, s) = advance(&c, Magnitude::Escaped, 10, 100);
    assert_eq!(s, Step::Escape);
    assert_eq!(d, PixelCounters { ref_iteration: 6, iteration: 5, status: PixelStatus::Escaped });
    assert_eq!(shade(&d), Shade::Smooth { iteration: 5, ref_iteration: 6 });
}

#[test]
fn exhausted_pixels_are_interior() {
    let c = PixelCounters { ref_iteration: 3, iteration: 1000, status: PixelStatus::Active };
    let (d, remaining) = settle(&c, 1000);
    assert!(!remaining);
    assert_eq!(d.status, PixelStatus::Exhausted);
    assert_eq!(shade(&d), Shade::Interior);
    let other = PixelCounters { ref_iteration: 0, iteration: 1000, status: PixelStatus::Exhausted };
    assert_eq!(shade(&other), Shade::Interior);
    let active = PixelCounters { ref_iteration: 3, iteration: 10, status: PixelStatus::Active };
    assert_eq!(settle(&active, 1000), (active, true));
    assert_eq!(shade(&active), Shade::Pending);
}

#[test]
fn dispatch_loop_bounds() {
    let c = start(0);
    assert!(wants_iteration(&c, 10, 0, 5));
    assert!(!wants_iteration(&c, 10, 5, 5));
    assert!(!wants_iteration(&c, 0, 0, 5));
    assert_eq!(batch_bound(Some(7), 1000), 7);
    assert_eq!(batch_bound(None, 1000), 1000);
}

fn measure(k: u32, salt: u32) -> Magnitude {
    if k == 600 + salt {
        Magnitude::Escaped
    } else if k % (7 + salt) == 3 {
        Magnitude::BelowDelta
    } else {
        Magnitude::Bounded
    }
}

fn render(pixels: usize, iterations: u32, batch: u32, orbit_len: u32) -> (Vec<PixelCounters>, Vec<u64>) {
    let mut states: Vec<PixelCounters> = (0..pixels).map(|_| start(0)).collect();
    let mut counts = Vec::new();
    loop {
        for (p, c) in states.iter_mut().enumerate() {
            let mut done = 0;
            while wants_iteration(c, iterations, done, batch) {
                let (n, _) = advance(c, measure(c.iteration, p as u32 * 150), orbit_len, iterations);
                *c = n;
                done += 1;
            }
            *c = settle(c, iterations).0;
        }
        let remaining = count_active(&states);
        counts.push(remaining);
        if remaining == 0 {
            return (states, counts);
        }
    }
}

#[test]
fn batch_bound_does_not_change_the_result() {
    let (a, ca) = render(4, 1000, 100, 50);
    let (b, cb) = render(4, 1000, 10_000, 50);
    assert_eq!(a, b);
    assert_eq!(cb, vec![0]);
    assert!(ca.len() > 1);
    assert_eq!(a[0].status, PixelStatus::Escaped);
    assert_eq!(a[0].iteration, 600);
    assert_eq!(a[3].status, PixelStatus::Exhausted);
    assert_eq!(a[3].iteration, 1000);
}

#[test]
fn remaining_count_never_grows() {
    let (_, counts) = render(4, 1000, 100, 50);
    for w in counts.windows(2) {
        assert!(w[1] <= w[0]);
    }
    assert_eq!(*counts.last().unwrap(), 0);
}

#[test]
fn scheduler_lifecycle() {
    let mut s = Scheduler::new();
    assert!(!s.finished());
    assert_eq!(s.begin_step(), StepPlan::RebuildAndDispatch);
    assert_eq!(s.end_step(12), 12);
    assert!(!s.finished());
    assert_eq!(s.begin_step(), StepPlan::Dispatch);
    assert_eq!(s.end_step(0), 0);
    assert!(s.finished());
    assert_eq!(s.dispatches(), 2);
    s.position_changed();
    assert!(!s.finished());
    assert_eq!(s.dispatches(), 0);
    assert_eq!(s.begin_step(), StepPlan::RebuildAndDispatch);
}

#[test]
fn exponent_arithmetic() {
    assert_eq!(common_scale(3, -2), CommonScale { exponent: 3, a_shift: 0, b_shift: 5 });
    assert_eq!(common_scale(-7, -7), CommonScale { exponent: -7, a_shift: 0, b_shift: 0 });
    assert_eq!(
        common_scale(i32::MIN, i32::MAX),
        CommonScale { exponent: i32::MAX, a_shift: u32::MAX, b_shift: 0 }
    );
    assert_eq!(product_exponent(10, -3, 1), ProductExponent::Exact(8));
    assert_eq!(product_exponent(i32::MAX, 1, 0), ProductExponent::Overflow);
    assert_eq!(product_exponent(i32::MIN, -1, 0), ProductExponent::Underflow);
    assert_eq!(validity_bound_exponent(Some(-40)), ProductExponent::Exact(60));
    assert_eq!(validity_bound_exponent(None), ProductExponent::Exact(100));
}

#[test]
fn pixel_state_store_size() {
    assert_eq!(pixel_state_bytes(800, 600, 1), 24 * 800 * 600);
    assert_eq!(pixel_state_bytes(256, 256, 2), 24 * 512 * 512);
}

#[test]
fn decimal_literals_become_high_precision_reals() {
    let x = float_from_str("1.5e3").unwrap();
    assert_eq!(x, malachite::Float::from_unsigned_prec(1500u32, 53).0);
    assert_eq!(x.get_prec(), Some(53));
    let z = float_from_str("4.9369960548568338955566401331513647338919005732326e-5").unwrap();
    assert_eq!(z.get_prec(), Some(199));
    assert_eq!(z.get_exponent(), Some(-14));
    let h = float_from_str("-0.5").unwrap();
    assert_eq!(h.get_exponent(), Some(0));
    assert!(!h.is_sign_positive());
    assert_eq!(float_from_str("abc").unwrap_err(), ConfigError::MalformedDecimal);
    assert_eq!(float_from_str("1e").unwrap_err(), ConfigError::MalformedDecimal);
    assert_eq!(float_from_str("0.5.5").unwrap_err(), ConfigError::MalformedDecimal);
}

#[test]
fn view_precision_tracks_the_zoom() {
    let z = float_from_str("4.9369960548568338955566401331513647338919005732326e-5").unwrap();
    let x = float_from_str("-0.69550855300283617401720624898076838918553513221840").unwrap();
    let y = float_from_str("0.36821253719040156918882966036467425177521358016978").unwrap();
    assert_eq!(view_precision(53, &z, &x, &y), 64 + 14 + 1);
    assert_eq!(view_precision(199, &z, &x, &y), 199);
}

#[test]
fn resolve_reads_every_sample_once() {
    for (w, h, k) in [(4u32, 3u32, 2u32), (5, 2, 1)] {
        let mut all = Vec::new();
        for y in 0..h {
            for x in 0..w {
                all.extend(resolve_sources(x, y, w, h, k));
            }
        }
        all.sort();
        let expected: Vec<u64> = (0..(k * w * k * h) as u64).collect();
        assert_eq!(all, expected);
    }
}

#[test]
fn tiles_partition_each_axis() {
    for extent in [1u32, 63, 64, 65, 200, 800] {
        let mut next = 0;
        for t in 0..tile_count(extent) {
            let (x, w) = tile_span(t, extent);
            assert_eq!(x, next);
            next = x + w;
        }
        assert_eq!(next, extent);
    }
}

#[test]
fn watchdog_timeouts_retry_in_tiles_once() {
    assert_eq!(recover(DispatchMode::Whole, DispatchOutcome::Completed), Recovery::Proceed);
    assert_eq!(recover(DispatchMode::Tiled, DispatchOutcome::Completed), Recovery::Proceed);
    assert_eq!(recover(DispatchMode::Whole, DispatchOutcome::TimedOut), Recovery::RetryTiled);
    assert_eq!(recover(DispatchMode::Tiled, DispatchOutcome::TimedOut), Recovery::Fatal);
}
