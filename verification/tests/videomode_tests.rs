use wallpaper_pump::videomode::{abs_diff, get_best_videomode, get_fitting_videomode, VideoMode};

fn mode(width: u32, height: u32, refresh_millihertz: u32) -> VideoMode {
    VideoMode {
        width,
        height,
        refresh_millihertz,
    }
}

#[test]
fn abs_diff_exact() {
    assert_eq!(abs_diff(10, 3), 7);
    assert_eq!(abs_diff(3, 10), 7);
    assert_eq!(abs_diff(5, 5), 0);
}

#[test]
fn fitting_prefers_closest_width() {
    let modes = vec![
        mode(1920, 1080, 60_000),
        mode(1280, 720, 60_000),
        mode(800, 600, 60_000),
    ];
    assert_eq!(
        get_fitting_videomode(&modes, 1300, 700),
        mode(1280, 720, 60_000)
    );
}

#[test]
fn fitting_breaks_width_tie_by_height() {
    let modes = vec![mode(1000, 900, 60_000), mode(1000, 700, 60_000)];
    assert_eq!(
        get_fitting_videomode(&modes, 1000, 750),
        mode(1000, 700, 60_000)
    );
}

#[test]
fn fitting_breaks_full_tie_by_refresh() {
    let modes = vec![
        mode(1000, 700, 60_000),
        mode(1000, 700, 144_000),
        mode(1000, 700, 75_000),
    ];
    assert_eq!(
        get_fitting_videomode(&modes, 1000, 700),
        mode(1000, 700, 144_000)
    );
}

#[test]
fn fitting_keeps_earliest_among_equals() {
    let modes = vec![mode(1000, 700, 60_000), mode(1000, 700, 60_000)];
    let r = get_fitting_videomode(&modes, 1000, 700);
    assert_eq!(r, modes[0]);
}

#[test]
fn best_prefers_width_then_height_then_refresh() {
    let modes = vec![
        mode(1280, 1024, 144_000),
        mode(1920, 1080, 60_000),
        mode(1920, 1200, 60_000),
        mode(1920, 1200, 120_000),
    ];
    assert_eq!(get_best_videomode(&modes), mode(1920, 1200, 120_000));
}

#[test]
fn best_of_single_mode() {
    let modes = vec![mode(640, 480, 30_000)];
    assert_eq!(get_best_videomode(&modes), mode(640, 480, 30_000));
}
