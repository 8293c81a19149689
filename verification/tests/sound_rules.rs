use flair_bloom::sound::{
    check_sound_extension, check_sound_file_name, check_sound_size, pick_unique_name,
    sound_name_verdict, unique_file_name_candidate, SOUND_MAX_BYTES,
};
use std::cell::RefCell;
use std::collections::HashSet;
use flair_bloom::stem::{sanitize_stem, MAX_STEM_CHARS};

#[test]
fn sanitize_stem_strips_illegal_chars() {
    assert_eq!(sanitize_stem("a/b\\c:d*e?f\"g<h>i|j"), "abcdefghij");
    assert_eq!(sanitize_stem("  开火音效  "), "开火音效");
}

#[test]
fn sanitize_stem_falls_back_when_empty() {
    assert_eq!(sanitize_stem(""), "提示音");
    assert_eq!(sanitize_stem("..."), "提示音");
    assert_eq!(sanitize_stem("///"), "提示音");
}

#[test]
fn sanitize_stem_truncates_long_name() {
    let long = "字".repeat(200);
    assert_eq!(sanitize_stem(&long).chars().count(), MAX_STEM_CHARS);
}

#[test]
fn sanitize_stem_removes_control_characters() {
    assert_eq!(sanitize_stem("a\u{0}b\u{7f}c\u{85}d\te"), "abcde");
}

#[test]
fn sanitize_stem_trims_dots_then_white_space() {
    assert_eq!(sanitize_stem(" .shot. "), "shot");
    assert_eq!(sanitize_stem("\u{3000}shot\u{2028}"), "shot");
}

#[test]
fn sanitize_stem_keeps_clean_stems() {
    assert_eq!(sanitize_stem("shot"), "shot");
    assert_eq!(sanitize_stem("开火 音效 2"), "开火 音效 2");
}

#[test]
fn sanitize_stem_is_not_idempotent_on_inner_dots() {
    let once = sanitize_stem(". .a");
    assert_eq!(once, ".a");
    assert_eq!(sanitize_stem(&once), "a");
}

#[test]
fn sanitize_stem_result_is_a_valid_name() {
    for input in ["", " ", "\t\n", "a:b", "  ..  ", "x".repeat(100).as_str(), "*?<>|"] {
        let r = sanitize_stem(input);
        assert!(!r.is_empty());
        assert!(r.chars().count() <= MAX_STEM_CHARS);
        assert!(!r.chars().any(|c| c.is_control() || "/\\:*?\"<>|".contains(c)));
        assert!(!r.starts_with(char::is_whitespace) && !r.ends_with(char::is_whitespace));
    }
}

#[test]
fn unique_file_name_candidates_count_from_two() {
    assert_eq!(unique_file_name_candidate("shot", "mp3", 1), "shot.mp3");
    assert_eq!(unique_file_name_candidate("shot", "mp3", 2), "shot (2).mp3");
    assert_eq!(unique_file_name_candidate("shot", "mp3", 3), "shot (3).mp3");
    assert_eq!(unique_file_name_candidate("shot", "mp3", 10), "shot (10).mp3");
    assert_eq!(unique_file_name_candidate("s", "ogg", u32::MAX), "s (4294967295).ogg");
}

#[test]
fn unique_file_name_candidates_differ() {
    let names: Vec<String> = (1..200).map(|n| unique_file_name_candidate("a", "b", n)).collect();
    for i in 0..names.len() {
        for j in (i + 1)..names.len() {
            assert_ne!(names[i], names[j]);
        }
    }
}

#[test]
fn check_sound_extension_accepts_known_formats_in_any_case() {
    assert_eq!(check_sound_extension("MP3"), Ok("mp3".to_string()));
    assert_eq!(check_sound_extension("flac"), Ok("flac".to_string()));
    assert_eq!(check_sound_extension("WebM"), Ok("webm".to_string()));
}

#[test]
fn check_sound_extension_rejects_unknown_formats() {
    assert_eq!(
        check_sound_extension("TXT"),
        Err("不支持的音频格式：.txt".to_string())
    );
    assert_eq!(
        check_sound_extension(""),
        Err("不支持的音频格式：无扩展名".to_string())
    );
}

#[test]
fn check_sound_size_limits_to_five_mib() {
    assert_eq!(check_sound_size(0), Ok(()));
    assert_eq!(check_sound_size(SOUND_MAX_BYTES), Ok(()));
    assert_eq!(
        check_sound_size(SOUND_MAX_BYTES + 1),
        Err("文件过大（5242881 字节），超过 5 MB 上限".to_string())
    );
}

#[test]
fn check_sound_file_name_refuses_traversal() {
    assert_eq!(check_sound_file_name("shot.mp3"), Ok(()));
    assert_eq!(check_sound_file_name("开火 (2).ogg"), Ok(()));
    assert_eq!(check_sound_file_name("a.b.c"), Ok(()));
    assert_eq!(
        check_sound_file_name("../shot.mp3"),
        Err("非法的提示音文件名：../shot.mp3".to_string())
    );
    assert_eq!(
        check_sound_file_name("/etc/passwd"),
        Err("非法的提示音文件名：/etc/passwd".to_string())
    );
    assert_eq!(
        check_sound_file_name(""),
        Err("非法的提示音文件名：".to_string())
    );
    assert!(check_sound_file_name("..").is_err());
    assert!(check_sound_file_name(".").is_err());
    assert!(check_sound_file_name("a/").is_err());
}

#[test]
fn sound_name_verdict_compares_with_final_component() {
    assert_eq!(sound_name_verdict("a.mp3", Some("a.mp3")), Ok(()));
    assert!(sound_name_verdict("x/a.mp3", Some("a.mp3")).is_err());
    assert!(sound_name_verdict("..", None).is_err());
    assert!(sound_name_verdict("", Some("")).is_err());
}

#[test]
fn pick_unique_name_appends_index() {
    let present: RefCell<HashSet<String>> = RefCell::new(HashSet::new());
    let (first, n1) = pick_unique_name("shot", "mp3", |s: &str| present.borrow().contains(s));
    assert_eq!((first.as_str(), n1), ("shot.mp3", 1));
    present.borrow_mut().insert(first);

    let (second, n2) = pick_unique_name("shot", "mp3", |s: &str| present.borrow().contains(s));
    assert_eq!((second.as_str(), n2), ("shot (2).mp3", 2));
    present.borrow_mut().insert(second);

    let (third, n3) = pick_unique_name("shot", "mp3", |s: &str| present.borrow().contains(s));
    assert_eq!((third.as_str(), n3), ("shot (3).mp3", 3));
}

#[test]
fn pick_unique_name_takes_the_first_free_round() {
    let present: HashSet<&str> = ["a.b", "a (2).b", "a (4).b"].into_iter().collect();
    let (name, n) = pick_unique_name("a", "b", |s: &str| present.contains(s));
    assert_eq!((name.as_str(), n), ("a (3).b", 3));
}

#[test]
fn stored_names_pass_the_lookup_check() {
    for stem in ["shot", "开火音效", " .a?b. "] {
        let name = unique_file_name_candidate(&flair_bloom::stem::sanitize_stem(stem), "mp3", 2);
        assert_eq!(check_sound_file_name(&name), Ok(()));
    }
}
