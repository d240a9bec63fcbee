use retro_wicket::fixed::Vec2;
use retro_wicket::playfield::{Rect, Screen, HEIGHT, WIDTH};

const PX: i64 = 1_000_000;

fn v(x: i64, y: i64) -> Vec2 {
    Vec2 { x, y }
}

#[test]
fn playfield_is_160_by_100() {
    assert_eq!((WIDTH, HEIGHT), (160 * PX, 100 * PX));
}

#[test]
fn wide_screen_is_filled_in_height() {
    let screen = Screen { width: 1920, height: 1080 };
    assert_eq!(screen.scale(), 10_800_000);
    assert_eq!(screen.playfield_size(), v(1728 * PX, 1080 * PX));
    assert_eq!(screen.origin(), v(96 * PX, 0));
}

#[test]
fn tall_screen_is_filled_in_width() {
    let screen = Screen { width: 800, height: 1000 };
    assert_eq!(screen.scale(), 5_000_000);
    assert_eq!(screen.playfield_size(), v(800 * PX, 500 * PX));
    assert_eq!(screen.origin(), v(0, 250 * PX));
}

#[test]
fn screen_of_the_same_shape_is_filled() {
    let screen = Screen { width: 320, height: 200 };
    assert_eq!(screen.scale(), 2_000_000);
    assert_eq!(screen.playfield_size(), v(320 * PX, 200 * PX));
    assert_eq!(screen.origin(), v(0, 0));
}

#[test]
fn odd_screen_is_centred_exactly() {
    let screen = Screen { width: 333, height: 77 };
    assert_eq!(screen.scale(), 770_000);
    assert_eq!(screen.playfield_size(), v(123_200_000, 77 * PX));
    assert_eq!(screen.origin(), v(104_900_000, 0));
}

#[test]
fn points_are_scaled_and_moved_to_the_playfield() {
    let screen = Screen { width: 1920, height: 1080 };
    assert_eq!(screen.transform_point(v(0, 0)), v(96 * PX, 0));
    assert_eq!(screen.transform_point(v(160 * PX, 100 * PX)), v(1824 * PX, 1080 * PX));
    assert_eq!(screen.transform_point(v(80 * PX, 50 * PX)), v(960 * PX, 540 * PX));
    assert_eq!(screen.transform_point(v(-10 * PX, -1)), v(-12 * PX, -11));
}

#[test]
fn sizes_and_lengths_are_scaled() {
    let screen = Screen { width: 1920, height: 1080 };
    assert_eq!(screen.transform_length(40 * PX), 432 * PX);
    assert_eq!(screen.transform_length(0), 0);
    assert_eq!(screen.transform_length(-5 * PX), -54 * PX);
    assert_eq!(screen.transform_length(1), 10);
    assert_eq!(screen.transform_size(v(80 * PX, 100 * PX)), v(864 * PX, 1080 * PX));
}

#[test]
fn scaled_lengths_are_rounded_down() {
    let screen = Screen { width: 333, height: 77 };
    // Scale 0.77.
    assert_eq!(screen.transform_length(1), 0);
    assert_eq!(screen.transform_length(-1), -1);
    assert_eq!(screen.transform_length(3), 2);
    assert_eq!(screen.transform_length(-3), -3);
}

#[test]
fn lengths_on_the_screen_are_scaled_back() {
    let screen = Screen { width: 1920, height: 1080 };
    assert_eq!(screen.untransform_length(432 * PX), Some(40 * PX));
    assert_eq!(screen.untransform_length(0), Some(0));
    assert_eq!(screen.untransform_length(-108 * PX), Some(-10 * PX));
    assert_eq!(screen.untransform_length(1), Some(0));
    assert_eq!(screen.untransform_length(-1), Some(-1));
    assert_eq!(screen.untransform_length(108), Some(10));
}

#[test]
fn screen_without_extent_has_scale_zero() {
    for screen in [
        Screen { width: 0, height: 0 },
        Screen { width: 0, height: 600 },
        Screen { width: 800, height: 0 },
    ] {
        assert_eq!(screen.scale(), 0);
        assert_eq!(screen.playfield_size(), v(0, 0));
        assert_eq!(screen.transform_length(40 * PX), 0);
        assert_eq!(screen.untransform_length(40 * PX), None);
    }
    assert_eq!(Screen { width: 800, height: 0 }.origin(), v(400 * PX, 0));
}

#[test]
fn largest_screen_and_lengths_saturate() {
    let screen = Screen { width: u32::MAX, height: u32::MAX };
    assert_eq!(screen.scale(), 6_250 * (u32::MAX as i64));
    assert_eq!(screen.transform_length(i64::MAX), i64::MAX);
    assert_eq!(screen.transform_length(i64::MIN), i64::MIN);
    assert_eq!(screen.transform_point(v(i64::MAX, i64::MIN)), v(i64::MAX, i64::MIN));
    let small = Screen { width: 1, height: 1 };
    assert_eq!(small.scale(), 6_250);
    assert_eq!(small.untransform_length(i64::MAX), Some(i64::MAX));
    assert_eq!(small.untransform_length(i64::MIN), Some(i64::MIN));
}

#[test]
fn borders_fill_what_the_playfield_leaves() {
    let wide = Screen { width: 1920, height: 1080 };
    assert_eq!(
        wide.borders(),
        [
            Rect { x: 0, y: 0, width: 96 * PX, height: 1080 * PX },
            Rect { x: 1824 * PX, y: 0, width: 96 * PX, height: 1080 * PX },
            Rect { x: 0, y: 0, width: 1728 * PX, height: 0 },
            Rect { x: 0, y: 1080 * PX, width: 1728 * PX, height: 0 },
        ]
    );
    let tall = Screen { width: 800, height: 1000 };
    assert_eq!(
        tall.borders(),
        [
            Rect { x: 0, y: 0, width: 0, height: 500 * PX },
            Rect { x: 800 * PX, y: 0, width: 0, height: 500 * PX },
            Rect { x: 0, y: 0, width: 800 * PX, height: 250 * PX },
            Rect { x: 0, y: 750 * PX, width: 800 * PX, height: 250 * PX },
        ]
    );
}

#[test]
fn playfield_and_borders_cover_the_screen() {
    for (width, height) in [(1920u32, 1080u32), (800, 1000), (320, 200), (333, 77), (1, 999)] {
        let screen = Screen { width, height };
        let size = screen.playfield_size();
        let area = |r: &Rect| (r.width as i128) * (r.height as i128);
        let covered: i128 =
            screen.borders().iter().map(area).sum::<i128>() + (size.x as i128) * (size.y as i128);
        assert_eq!(covered, (width as i128) * (height as i128) * (PX as i128) * (PX as i128));
    }
}
