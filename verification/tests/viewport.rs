use desktop_buddy::units::midpoint_of;
use desktop_buddy::units::scale_to_pixel;
use desktop_buddy::viewport::FrameInput;
use desktop_buddy::viewport::LogicalRect;
use desktop_buddy::viewport::PaintInfo;
use desktop_buddy::viewport::ScissorRect;
use desktop_buddy::viewport::TargetExtent;
use desktop_buddy::viewport::ViewportRect;

fn rect(x: i32, y: i32, width: u32, height: u32) -> LogicalRect {
    LogicalRect { x, y, width, height }
}

fn info(viewport: LogicalRect, clip_rect: LogicalRect, ratio: u32, screen: u32) -> PaintInfo {
    PaintInfo { viewport, clip_rect, pixels_per_point: ratio, screen_height_px: screen }
}

#[test]
fn panel_at_ratio_two_is_flipped_and_scaled() {
    let panel = rect(10_000, 20_000, 100_000, 50_000);
    let input = FrameInput::new(&info(panel, panel, 2000, 600));
    assert_eq!(input.viewport(), ViewportRect { x: 20, y: 460, width: 200, height: 100 });
    assert_eq!(input.scissor_box(), ScissorRect { x: 20, y: 460, width: 200, height: 100 });
    assert_eq!(input.screen(), TargetExtent { width: 100, height: 50 });
}

#[test]
fn panel_filling_the_framebuffer_maps_to_all_of_it() {
    for (w, h) in [(1u32, 1u32), (640, 480), (1920, 1080), (0, 0), (3, 7000)] {
        let panel = rect(0, 0, w * 1000, h * 1000);
        let input = FrameInput::new(&info(panel, panel, 1000, h));
        assert_eq!(
            input.viewport(),
            ViewportRect { x: 0, y: 0, width: w as u64, height: h as u64 }
        );
    }
}

#[test]
fn mapping_twice_gives_the_same_rectangles() {
    let i = info(rect(-3_250, 7_125, 41_333, 9_999), rect(0, 0, 20_000, 20_000), 1250, 768);
    let first = FrameInput::new(&i);
    let second = FrameInput::new(&i);
    assert_eq!(first, second);
    assert_eq!(first.viewport(), second.viewport());
    assert_eq!(first.scissor_box(), second.scissor_box());
}

fn assert_inside(input: &FrameInput) {
    let v = input.viewport();
    let s = input.scissor_box();
    assert!(v.x <= s.x);
    assert!(v.y <= s.y);
    assert!(s.x as i128 + s.width as i128 <= v.x as i128 + v.width as i128);
    assert!(s.y as i128 + s.height as i128 <= v.y as i128 + v.height as i128);
}

#[test]
fn scissor_stays_inside_viewport() {
    let panels = [
        rect(10_000, 10_000, 20_000, 20_000),
        rect(-5_500, -2_250, 11_000, 4_500),
        rect(0, 0, 0, 0),
        rect(i32::MAX, i32::MIN, u32::MAX, u32::MAX),
    ];
    let clips = [
        rect(0, 0, 100_000, 100_000),
        rect(15_000, 12_000, 5_000, 50_000),
        rect(-100_000, -100_000, 1_000, 1_000),
        rect(29_999, 29_999, 1, 1),
        rect(i32::MIN, i32::MAX, u32::MAX, 0),
    ];
    for panel in panels {
        for clip in clips {
            for ratio in [0u32, 618, 1000, 1500, 2000, 3142, u32::MAX] {
                assert_inside(&FrameInput::new(&info(panel, clip, ratio, 1080)));
            }
        }
    }
}

#[test]
fn clip_larger_than_panel_leaves_whole_panel() {
    let panel = rect(10_000, 10_000, 20_000, 20_000);
    let input = FrameInput::new(&info(panel, rect(0, 0, 100_000, 100_000), 1000, 100));
    assert_eq!(input.viewport(), ViewportRect { x: 10, y: 70, width: 20, height: 20 });
    assert_eq!(input.scissor_box(), ScissorRect { x: 10, y: 70, width: 20, height: 20 });
}

#[test]
fn clip_inside_panel_is_the_scissor() {
    let panel = rect(10_000, 10_000, 20_000, 20_000);
    let clip = rect(12_000, 15_000, 4_000, 5_000);
    let input = FrameInput::new(&info(panel, clip, 2000, 100));
    assert_eq!(input.viewport(), ViewportRect { x: 20, y: 40, width: 40, height: 40 });
    assert_eq!(input.scissor_box(), ScissorRect { x: 24, y: 60, width: 8, height: 10 });
}

#[test]
fn clip_overlapping_one_corner_is_cut_to_the_panel() {
    let panel = rect(10_000, 10_000, 20_000, 20_000);
    let clip = rect(25_000, 5_000, 50_000, 10_000);
    let input = FrameInput::new(&info(panel, clip, 1000, 100));
    assert_eq!(input.scissor_box(), ScissorRect { x: 25, y: 85, width: 5, height: 5 });
}

#[test]
fn clip_away_from_panel_leaves_nothing() {
    let panel = rect(10_000, 10_000, 20_000, 20_000);
    let clip = rect(50_000, 50_000, 10_000, 10_000);
    let input = FrameInput::new(&info(panel, clip, 1000, 100));
    assert!(input.scissor_box().is_empty());
    assert!(!input.viewport().is_empty());
    assert_inside(&input);
}

#[test]
fn zero_size_panel_is_empty_not_an_error() {
    let panel = rect(5_000, 5_000, 0, 0);
    let input = FrameInput::new(&info(panel, panel, 2000, 100));
    assert_eq!(input.viewport(), ViewportRect { x: 10, y: 90, width: 0, height: 0 });
    assert!(input.viewport().is_empty());
    assert!(input.scissor_box().is_empty());
    assert_eq!(input.screen(), TargetExtent { width: 0, height: 0 });
}

#[test]
fn panel_below_the_framebuffer_has_negative_y() {
    let panel = rect(0, 90_000, 10_000, 30_000);
    let input = FrameInput::new(&info(panel, panel, 1000, 100));
    assert_eq!(input.viewport(), ViewportRect { x: 0, y: -20, width: 10, height: 30 });
}

#[test]
fn adjacent_panels_share_the_pixel_boundary() {
    for ratio in [618u32, 1000, 1250, 3142] {
        for split in (0..=100_000i32).step_by(97) {
            let left = rect(0, 0, split as u32, 100_000);
            let right = rect(split, 0, 100_000 - split as u32, 100_000);
            let l = FrameInput::new(&info(left, left, ratio, 400)).viewport();
            let r = FrameInput::new(&info(right, right, ratio, 400)).viewport();
            assert_eq!(l.x + l.width as i64, r.x);
        }
    }
}

#[test]
fn render_target_drops_fractions_of_a_unit() {
    let panel = rect(0, 0, 100_999, 50_001);
    let input = FrameInput::new(&info(panel, panel, 1000, 100));
    assert_eq!(input.screen(), TargetExtent { width: 100, height: 50 });
}

#[test]
fn pixel_edges_round_to_nearest_with_ties_upwards() {
    assert_eq!(scale_to_pixel(10_000, 2000), 20);
    assert_eq!(scale_to_pixel(250, 2000), 1);
    assert_eq!(scale_to_pixel(249, 2000), 0);
    assert_eq!(scale_to_pixel(-250, 2000), 0);
    assert_eq!(scale_to_pixel(-251, 2000), -1);
    assert_eq!(scale_to_pixel(-750, 2000), -1);
    assert_eq!(scale_to_pixel(1_500, 1000), 2);
    assert_eq!(scale_to_pixel(1_499, 1000), 1);
    assert_eq!(scale_to_pixel(-1_500, 1000), -1);
    assert_eq!(scale_to_pixel(0, u32::MAX), 0);
    assert_eq!(scale_to_pixel(123_456, 0), 0);
    assert_eq!(scale_to_pixel(0x2_0000_0000, u32::MAX), 36_893_488_138_829);
    assert_eq!(scale_to_pixel(-0x2_0000_0000, u32::MAX), -36_893_488_138_829);
}

#[test]
fn midpoints_round_down() {
    assert_eq!(midpoint_of(-1000, 1000), 0);
    assert_eq!(midpoint_of(0, 3), 1);
    assert_eq!(midpoint_of(-3, 0), -2);
    assert_eq!(midpoint_of(-3, -2), -3);
    assert_eq!(midpoint_of(7, 7), 7);
    assert_eq!(midpoint_of(3, 0), 1);
    assert_eq!(midpoint_of(0, -3), -2);
    assert_eq!(midpoint_of(i64::MIN, i64::MAX), -1);
}
