use pause::settings::DEFAULT_WALLPAPER_URL;
use pause::wallpaper::fallback::{lcg_next, seed_shapeless};
use pause::wallpaper::provider::{accept_download, default_url, fetch_url, FETCH_ATTEMPTS};

#[test]
fn generator_sequence() {
    let mut seed = 3u64;
    assert_eq!(lcg_next(&mut seed), 243_117_059);
    assert_eq!(seed, 2_088_359_638_719_790_806);
    assert_eq!(seed_shapeless(&mut seed), 697_555_963);
    assert_eq!(seed, 5_991_960_103_029_929_709);
}

#[test]
fn download_rules() {
    assert_eq!(default_url(), DEFAULT_WALLPAPER_URL);
    assert_eq!(fetch_url(None), DEFAULT_WALLPAPER_URL);
    assert_eq!(fetch_url(Some("  ")), DEFAULT_WALLPAPER_URL);
    assert_eq!(fetch_url(Some("http://x/y")), "http://x/y");
    assert!(accept_download(200, 30_001));
    assert!(!accept_download(200, 30_000));
    assert!(!accept_download(404, 100_000));
    assert_eq!(FETCH_ATTEMPTS, 2);
}
