use pause::wallpaper::cache::{
    decode_checked, files_to_evict, index_from_text, latest_index, pseudo_random_pick,
    random_older_index, record_new_file, MAX_COUNT,
};
use pause::wallpaper::schedule::{next_source, WallpaperSource};

#[test]
fn test_evict_plan_pure_function() {
    let names: Vec<String> = (1..=25).map(|i| format!("img{i}")).collect();
    let evict = files_to_evict(&names, MAX_COUNT);
    assert_eq!(evict.len(), 7);
    assert_eq!(evict[0], "img19");
    assert_eq!(evict.last().unwrap(), "img25");

    let few: Vec<String> = (0..5).map(|i| i.to_string()).collect();
    assert!(files_to_evict(&few, MAX_COUNT).is_empty());
    assert!(files_to_evict(&[], MAX_COUNT).is_empty());
}

#[test]
fn recording_a_file_puts_it_first_and_evicts_the_oldest() {
    let mut names: Vec<String> = (1..=18).map(|i| format!("img{i}")).collect();
    let evicted = record_new_file(&mut names, "new".to_string());
    assert_eq!(names.len(), MAX_COUNT);
    assert_eq!(names[0], "new");
    assert_eq!(names[17], "img17");
    assert_eq!(evicted, vec!["img18".to_string()]);

    let mut few = vec!["a".to_string()];
    let evicted = record_new_file(&mut few, "b".to_string());
    assert_eq!(few, vec!["b".to_string(), "a".to_string()]);
    assert!(evicted.is_empty());
}

#[test]
fn random_older_never_takes_the_newest() {
    assert_eq!(random_older_index(0, 7), None);
    assert_eq!(random_older_index(1, 7), None);
    assert_eq!(random_older_index(2, 7), Some(1));
    assert_eq!(random_older_index(5, 7), Some(1 + 7 % 4));
    for nanos in [0u32, 1, 999_999_999] {
        let i = random_older_index(18, nanos).unwrap();
        assert!((1..18).contains(&i));
    }
    assert_eq!(pseudo_random_pick(10, 123), 3);
}

fn noise_png(w: u32, h: u32) -> Vec<u8> {
    let mut seed = 12345u64;
    let img = image::RgbImage::from_fn(w, h, |_, _| {
        seed = seed.wrapping_mul(6364136223846793005).wrapping_add(1442695040888963407);
        let b = (seed >> 40) as u8;
        image::Rgb([b, b.wrapping_mul(3), b.wrapping_add(91)])
    });
    let mut buf = std::io::Cursor::new(Vec::new());
    image::DynamicImage::ImageRgb8(img)
        .write_to(&mut buf, image::ImageFormat::Png)
        .unwrap();
    buf.into_inner()
}

#[test]
fn decoding_refuses_small_or_unknown_data() {
    assert!(decode_checked(&vec![0u8; 31_000]).is_none());
    let png = noise_png(200, 200);
    assert!(png.len() >= 30_000);
    let img = decode_checked(&png).expect("a real image decodes");
    assert_eq!((img.width(), img.height()), (200, 200));
    assert!(decode_checked(&png[..29_999]).is_none());
}

#[test]
fn index_text_lists_names_newest_first() {
    assert_eq!(index_from_text(r#"["b.jpg","a.jpg"]"#), vec!["b.jpg".to_string(), "a.jpg".to_string()]);
    assert_eq!(index_from_text("[]"), Vec::<String>::new());
    for bad in ["", "garbage", r#"{"a":1}"#, "[1,2]", r#"["a.jpg""#] {
        assert!(index_from_text(bad).is_empty(), "{bad}");
    }
}

#[test]
fn latest_is_the_first_entry() {
    assert_eq!(latest_index(0), None);
    assert_eq!(latest_index(1), Some(0));
    assert_eq!(latest_index(18), Some(0));
}

#[test]
fn switch_never_waits_for_a_download() {
    assert_eq!(next_source(true, true, true), WallpaperSource::Prefetched);
    assert_eq!(next_source(false, true, true), WallpaperSource::OlderCached);
    assert_eq!(next_source(false, false, true), WallpaperSource::NewestCached);
    assert_eq!(next_source(false, false, false), WallpaperSource::Fallback);
    assert_eq!(next_source(true, false, false), WallpaperSource::Prefetched);
}

#[test]
fn data_without_image_signature_is_refused() {
    assert!(decode_checked(&vec![0u8; 40_000]).is_none());
    let mut jpeg_head = vec![0xFFu8, 0xD8, 0xFF];
    jpeg_head.resize(40_000, 0);
    // Signature known, but no decodable JPEG follows.
    assert!(decode_checked(&jpeg_head).is_none());
}
