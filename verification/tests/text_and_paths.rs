use std::path::Path;

use desplio::number;
use desplio::path;
use desplio::process;
use desplio::process::CommandOutput;
use desplio::sorting;
use desplio::text;

const SAMPLES: [&str; 16] = [
    "",
    " ",
    "a",
    "one\ntwo\r\nthree",
    "\n\n",
    "a\r\n\r\nb\r",
    "  leading and trailing \t ",
    "tab\tand\u{a0}nbsp\u{2003}em\u{3000}wide",
    "Screen 0: minimum 320 x 200, current 1920 x 1080, maximum 16384 x 16384",
    "eDP-1 connected primary 1920x1080+0+0 (normal left inverted) 344mm x 194mm",
    "HDMI-1 disconnected (normal left inverted right x axis y axis)",
    "++",
    "1280x800+1280+0",
    "'file:///usr/share/backgrounds/a b.jpg'",
    "\u{85}x\u{85}",
    "no newline at end\n",
];

#[test]
fn lines_are_those_of_std() {
    for s in SAMPLES {
        let ours = text::split_lines(s);
        let theirs: Vec<String> = s.lines().map(|l| l.to_string()).collect();
        assert_eq!(ours, theirs, "{s:?}");
    }
}

#[test]
fn fields_are_those_of_std() {
    for s in SAMPLES {
        let theirs: Vec<String> = s.split_whitespace().map(|l| l.to_string()).collect();
        assert_eq!(text::split_fields(s), theirs, "{s:?}");
        assert_eq!(text::first_of_fields(s), theirs.first().cloned(), "{s:?}");
    }
}

#[test]
fn trimming_is_that_of_std() {
    for s in SAMPLES {
        assert_eq!(text::trimmed(s), s.trim());
        assert_eq!(text::trimmed_start(s), s.trim_start());
        assert_eq!(text::trimmed_of(s, '\''), s.trim_matches('\''));
    }
}

#[test]
fn white_space_is_that_of_std() {
    for code in 0..0x11_0000u32 {
        if let Some(c) = char::from_u32(code) {
            assert_eq!(text::space(c), c.is_whitespace(), "{code:x}");
        }
    }
}

#[test]
fn searches_are_those_of_std() {
    let patterns = ["", " ", "a", "+", " connected", " disconnected", "x", "1920", "zzz", "\n"];
    for s in SAMPLES {
        for p in patterns {
            assert_eq!(text::holds(s, p), s.contains(p), "{s:?} {p:?}");
            assert_eq!(text::starts_with(s, p), s.starts_with(p), "{s:?} {p:?}");
            assert_eq!(text::ends_with(s, p), s.ends_with(p), "{s:?} {p:?}");
            assert_eq!(
                text::position(s, p),
                s.find(p).map(|at| s[..at].chars().count()),
                "{s:?} {p:?}"
            );
            assert_eq!(
                text::divide(s, p),
                s.split_once(p).map(|(a, b)| (a.to_string(), b.to_string())),
                "{s:?} {p:?}"
            );
        }
        let theirs: Vec<String> = s.split('+').map(|l| l.to_string()).collect();
        assert_eq!(text::pieces(s, '+'), theirs, "{s:?}");
    }
}

#[test]
fn digits_and_joins() {
    assert_eq!(text::leading_digits("1080, maximum"), "1080");
    assert_eq!(text::leading_digits("x1"), "");
    let list = vec!["a".to_string(), "b".to_string(), "c".to_string()];
    assert_eq!(text::joined(&list, ", "), "a, b, c");
    assert_eq!(text::joined(&text::no_texts(), ", "), "");
    assert_eq!(text::joined(&vec!["a".to_string()], "; "), "a");
}

#[test]
fn ascii_case_does_not_matter() {
    assert!(text::same_but_case("WAYLAND", "wayland"));
    assert!(text::same_but_case("Wayland", "wAYLAND"));
    assert!(!text::same_but_case("wayland ", "wayland"));
    assert!(!text::same_but_case("\u{212a}", "k"));
    assert!(text::same("x11", "x11"));
    assert!(!text::same("x11", "X11"));
}

#[test]
fn numbers_are_written_like_std() {
    for n in [0u64, 1, 9, 10, 42, 99, 100, 999, 1000, 9999, 10000, u64::MAX] {
        assert_eq!(number::decimal_text(n), n.to_string());
        assert_eq!(number::decimal4_text(n), format!("{n:04}"));
    }
    for n in [0i32, 1, -1, 42, -42, i32::MAX, i32::MIN] {
        assert_eq!(number::signed_text(n), n.to_string());
    }
}

#[test]
fn numbers_are_read_like_std() {
    let texts = [
        "", "+", "-", "0", "-0", "+0", "7", "+7", "-7", "007", "4294967295", "4294967296",
        "2147483647", "2147483648", "-2147483648", "-2147483649", "18446744073709551615",
        "18446744073709551616", "12a", "a", " 1", "1 ", "++1", "99999999999999999999999x",
    ];
    for s in texts {
        match (number::parse_u64(s), s.parse::<u64>()) {
            (Ok(a), Ok(b)) => assert_eq!(a, b, "{s:?}"),
            (Err(a), Err(b)) => assert_eq!(a.message(), b.to_string(), "{s:?}"),
            (a, b) => panic!("{s:?}: {a:?} {b:?}"),
        }
        match (number::parse_u32(s), s.parse::<u32>()) {
            (Ok(a), Ok(b)) => assert_eq!(a, b, "{s:?}"),
            (Err(a), Err(b)) => assert_eq!(a.message(), b.to_string(), "{s:?}"),
            (a, b) => panic!("{s:?}: {a:?} {b:?}"),
        }
        match (number::parse_i32(s), s.parse::<i32>()) {
            (Ok(a), Ok(b)) => assert_eq!(a, b, "{s:?}"),
            (Err(a), Err(b)) => assert_eq!(a.message(), b.to_string(), "{s:?}"),
            (a, b) => panic!("{s:?}: {a:?} {b:?}"),
        }
    }
}

#[test]
fn decimal_texts_are_read_back() {
    for n in [0u64, 5, 10, 1280, u64::MAX] {
        assert_eq!(number::parse_u64(number::decimal_text(n).as_str()), Ok(n));
    }
    assert_eq!(
        number::parse_u32(number::decimal_text(4_294_967_296).as_str()),
        Err(number::NumberError::TooLarge)
    );
}

#[test]
fn paths_are_those_of_std() {
    let paths = [
        "", "/", ".", "..", "a", "a/", "a/b", "a//b", "a/./b", "./a", "./", "/a", "/a/b/", "//a",
        "a/.", "a/./", "/.", "a/..", "../a", "artifacts/m1-frames", ".hidden", "a/.hidden", "x.",
        "frame-0000.png", "/.//", "./.",
    ];
    for p in paths {
        let parent = Path::new(p).parent().map(|x| x.to_str().unwrap().to_string());
        assert_eq!(path::parent_path(p), parent, "{p:?}");
        for q in paths {
            let joined = Path::new(p).join(q);
            assert_eq!(path::join_path(p, q), joined.to_str().unwrap(), "{p:?} {q:?}");
            assert_eq!(path::same_path(p, q), Path::new(p) == Path::new(q), "{p:?} {q:?}");
        }
    }
}

#[test]
fn the_parent_of_a_file_is_its_directory() {
    for dir in ["artifacts/m1-frames", "/tmp", ".", "a"] {
        let file = path::join_path(dir, "frame-0003.png");
        assert_eq!(path::parent_path(file.as_str()), Some(dir.to_string()));
    }
    assert_eq!(path::parent_path(path::join_path("a/", "f").as_str()), Some("a".to_string()));
}

#[test]
fn sorting_is_that_of_std() {
    let numbers = vec![3, -1, 10, 0, 3, 2, i32::MIN, i32::MAX];
    let mut sorted = numbers.clone();
    sorted.sort_unstable();
    assert_eq!(sorting::sort_numbers(&numbers), sorted);
    let texts: Vec<String> =
        ["b", "a", "", "aa", "B", "\u{e9}", "\u{10000}", "\u{ffff}", "a"].iter().map(|s| s.to_string()).collect();
    let mut sorted = texts.clone();
    sorted.sort();
    assert_eq!(sorting::sort_texts(&texts), sorted);
}

#[test]
fn bytes_become_text_like_std() {
    let samples: [&[u8]; 5] = [b"", b"plain", "\u{e9}\u{20ac}".as_bytes(), b"a\xffb", b"\xe2\x82"];
    for bytes in samples {
        assert_eq!(process::text_of(bytes), String::from_utf8_lossy(bytes));
    }
    let output = CommandOutput {
        success: false,
        stdout: b"out\xff\n".to_vec(),
        stderr: b"  broken \n".to_vec(),
    };
    assert_eq!(output.stdout_text(), "out\u{fffd}\n");
    assert_eq!(output.stderr_message(), "broken");
}
