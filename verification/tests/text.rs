use mustream::text::{
    char_vec, extract_video_id, format_secs, is_white_space, join2, join3, join_path, parent_of,
    trim,
};

#[test]
fn seconds_are_shown_as_minutes_and_seconds() {
    assert_eq!(format_secs(0), "0:00");
    assert_eq!(format_secs(5), "0:05");
    assert_eq!(format_secs(59), "0:59");
    assert_eq!(format_secs(60), "1:00");
    assert_eq!(format_secs(185), "3:05");
    assert_eq!(format_secs(3600), "60:00");
    assert_eq!(format_secs(-5), "0:-5");
    assert_eq!(format_secs(-65), "-1:-5");
    assert_eq!(format_secs(-60), "-1:00");
    assert_eq!(format_secs(-75), "-1:-15");
}

#[test]
fn seconds_are_shown_as_the_formatter_shows_them() {
    let mut all: Vec<i64> = (-8000..8000).collect();
    all.extend([i64::MIN, i64::MIN + 1, i64::MAX, i64::MAX - 1, 1 << 40, -(1 << 40)]);
    for s in all {
        assert_eq!(format_secs(s), format!("{}:{:02}", s / 60, s % 60));
    }
}

#[test]
fn different_seconds_are_shown_differently() {
    let mut texts: Vec<String> = (-500..500).map(format_secs).collect();
    let n = texts.len();
    texts.sort();
    texts.dedup();
    assert_eq!(texts.len(), n);
}

#[test]
fn video_ids_are_found() {
    assert_eq!(extract_video_id("https://www.youtube.com/watch?v=dQw4w9WgXcQ"), "dQw4w9WgXcQ");
    assert_eq!(extract_video_id("https://www.youtube.com/watch?v=abc&list=PL1&v=x"), "abc");
    assert_eq!(extract_video_id("https://www.youtube.com/watch?list=PL1&v=abc"), "abc");
    assert_eq!(extract_video_id("https://youtu.be/abc"), "");
    assert_eq!(extract_video_id(""), "");
    assert_eq!(extract_video_id("v"), "");
    assert_eq!(extract_video_id("v="), "");
    assert_eq!(extract_video_id("vv=a"), "a");
    assert_eq!(extract_video_id("x?v=&t=1"), "");
    assert_eq!(extract_video_id("動画?v=日本&x=1"), "日本");
}

#[test]
fn white_space_is_what_unicode_says() {
    for n in 0..=0x10ffff_u32 {
        if let Some(c) = char::from_u32(n) {
            assert_eq!(is_white_space(c), c.is_whitespace(), "{:x}", n);
        }
    }
}

#[test]
fn trimming_leaves_the_middle() {
    let texts = ["", " ", "\t\n", "a", " a", "a ", "  a b  ", "\u{3000}歌 曲\u{a0}", "\u{200b}x"];
    for s in texts {
        assert_eq!(trim(s), s.trim());
        assert_eq!(trim(&trim(s)), trim(s));
    }
    assert_eq!(trim("  a b  "), "a b");
}

#[test]
fn paths_are_joined_and_taken_apart() {
    assert_eq!(join_path("", "Jazz"), "Jazz");
    assert_eq!(join_path("Jazz", "1959"), "Jazz/1959");
    assert_eq!(join_path("a/b", "c"), "a/b/c");
    assert_eq!(parent_of("Jazz"), "");
    assert_eq!(parent_of("Jazz/1959"), "Jazz");
    assert_eq!(parent_of("a/b/c"), "a/b");
    assert_eq!(parent_of("/a"), "");
    assert_eq!(parent_of("a/"), "a");
    assert_eq!(parent_of(""), "");
    assert_eq!(parent_of("音楽/新曲"), "音楽");
    assert_eq!(parent_of(&join_path("a/b", "c d")), "a/b");
}

#[test]
fn pieces_are_joined() {
    assert_eq!(join2("a", "b"), "ab");
    assert_eq!(join3("a", "", "c"), "ac");
    assert_eq!(char_vec("aé日"), vec!['a', 'é', '日']);
}

#[test]
fn further_parameters_leave_the_video_id() {
    for url in ["https://y/watch?v=abc", "https://y/watch?v=abc&t=1", "v=", "x&v=日本"] {
        for more in ["", "list=1", "v=other", "&&"] {
            let longer = format!("{}&{}", url, more);
            assert_eq!(extract_video_id(&longer), extract_video_id(url));
        }
    }
}
