use slidevoice::Slide;
use slidevoice::paths::audio_cache_key_path;
use slidevoice::paths::audio_path;
use slidevoice::paths::image_path;
use slidevoice::paths::u64_to_dec;
use slidevoice::paths::video_path;
use slidevoice::video::generate_concat_list;
use slidevoice::video::generate_video;

fn slide(idx: u64) -> Slide {
    Slide { idx, note: String::new() }
}

#[test]
fn decimal_rendering_exact() {
    assert_eq!(u64_to_dec(0), "0");
    assert_eq!(u64_to_dec(9), "9");
    assert_eq!(u64_to_dec(10), "10");
    assert_eq!(u64_to_dec(42), "42");
    assert_eq!(u64_to_dec(1234567890), "1234567890");
    assert_eq!(u64_to_dec(u64::MAX), "18446744073709551615");
}

#[test]
fn paths_exact() {
    let s = slide(3);
    assert_eq!(audio_path("out", &s, "mp3"), "out/3.mp3");
    assert_eq!(audio_cache_key_path("out", &s), "out/3.cachekey.txt");
    assert_eq!(image_path("out", &s), "out/3.png");
    assert_eq!(video_path("out", &s), "out/video/3.mp4");
}

#[test]
fn paths_distinct_across_slides() {
    let a = audio_path("out", &slide(1), "mp3");
    let b = audio_path("out", &slide(12), "mp3");
    assert_ne!(a, b);
}

#[test]
fn concat_list_keeps_slide_order() {
    // list order is narration order, even where the decimal file names would
    // sort differently
    let slides = vec![slide(2), slide(10), slide(1)];
    let list = generate_concat_list("out", &slides);
    assert_eq!(
        list,
        "file 'video/2.mp4'\nfile 'video/10.mp4'\nfile 'video/1.mp4'"
    );
}

#[test]
fn concat_list_of_nothing_is_empty() {
    let slides: Vec<Slide> = Vec::new();
    assert_eq!(generate_concat_list("out", &slides), "");
}

#[test]
fn concat_list_single() {
    let slides = vec![slide(0)];
    assert_eq!(generate_concat_list("out", &slides), "file 'video/0.mp4'");
}

#[test]
fn video_plan_exact() {
    let slides = vec![slide(1), slide(0)];
    let plan = generate_video("work", &slides, "final.mp4", "mp3");
    assert_eq!(plan.clips.len(), 2);
    assert_eq!(plan.clips[0].image_path, "work/1.png");
    assert_eq!(plan.clips[0].audio_path, "work/1.mp3");
    assert_eq!(plan.clips[0].output_path, "work/video/1.mp4");
    assert_eq!(plan.clips[1].image_path, "work/0.png");
    assert_eq!(plan.clips[1].audio_path, "work/0.mp3");
    assert_eq!(plan.clips[1].output_path, "work/video/0.mp4");
    assert_eq!(plan.concat_list_path, "work/concat_list.txt");
    assert_eq!(
        plan.concat_list,
        "file 'video/1.mp4'\nfile 'video/0.mp4'"
    );
    assert_eq!(plan.output_path, "work/final.mp4");
}
