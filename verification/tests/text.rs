use file_peeker_client::components::{components, PathComponent};
use file_peeker_client::shell::shell_quote;
use file_peeker_client::text::{
    decimal, decimal_long, integer, lines, split, strip_prefix, trim, trim_end, CharClass,
};
use file_peeker_client::unix_path::{file_name, join, parent};

#[test]
fn quoting_covers_every_character() {
    assert_eq!(shell_quote(""), "''");
    assert_eq!(shell_quote("$(x) `y` \\ \"z\"\n"), "'$(x) `y` \\ \"z\"\n'");
    assert_eq!(shell_quote("''"), "''\"'\"''\"'\"''");
}

#[test]
fn numbers_are_written_in_decimal() {
    assert_eq!(decimal(0), "0");
    assert_eq!(decimal(u64::MAX), u64::MAX.to_string());
    assert_eq!(decimal_long(u128::MAX), u128::MAX.to_string());
    assert_eq!(integer(i32::MIN), i32::MIN.to_string());
    assert_eq!(integer(1024), "1024");
}

#[test]
fn white_space_is_trimmed() {
    for text in ["", "  ", " a b ", "\u{a0}x\u{3000}", "\t\r\nx\u{85}", "\u{200b}x"] {
        assert_eq!(trim(text), text.trim());
    }
    assert_eq!(trim_end("x\r\n\n", CharClass::LineEnd), "x");
    assert_eq!(trim_end("x \n", CharClass::LineEnd), "x ");
}

#[test]
fn every_white_space_character_is_known() {
    for code in 0..=0x10ffffu32 {
        if let Some(c) = char::from_u32(code) {
            if c.is_whitespace() || code % 4099 == 0 {
                let text = format!("{c}x");
                assert_eq!(trim(&text), text.trim());
            }
        }
    }
}

#[test]
fn texts_split_into_parts_and_lines() {
    assert_eq!(split("a..b", '.'), ["a", "", "b"]);
    assert_eq!(split("", '.'), [""]);
    for text in ["", "a", "a\n", "a\r\nb", "\n\n", "a\rb\n\r", "\r\n"] {
        assert_eq!(lines(text), text.lines().collect::<Vec<_>>());
    }
    assert_eq!(strip_prefix("abc", "ab"), Some("c".into()));
    assert_eq!(strip_prefix("abc", "abcd"), None);
    assert_eq!(strip_prefix("abc", "b"), None);
}

#[test]
fn paths_behave_like_the_platform() {
    let paths = [
        "", "/", "//", ".", "..", "a", "a/", "a/b", "/a", "/a/", "/a/./b", "/a/b/.", "./a", "./.",
        "a/..", "/..", "a//b//", "/./", ".hidden", "a/.hidden/..", "..a", "/.",
    ];
    for path in paths {
        let std_path = std::path::Path::new(path);
        assert_eq!(parent(path).as_deref(), std_path.parent().map(|p| p.to_str().unwrap()), "{path}");
        assert_eq!(
            file_name(path).as_deref(),
            std_path.file_name().map(|n| n.to_str().unwrap()),
            "{path}"
        );
        let parts: Vec<String> = components(path)
            .into_iter()
            .map(|c| match c {
                PathComponent::RootDir => "/".into(),
                PathComponent::CurDir => ".".into(),
                PathComponent::ParentDir => "..".into(),
                PathComponent::Normal(name) => name,
            })
            .collect();
        let expected: Vec<String> = std_path
            .components()
            .map(|c| c.as_os_str().to_str().unwrap().to_string())
            .collect();
        assert_eq!(parts, expected, "{path}");
        for part in ["x", "/x", "", "../x"] {
            assert_eq!(join(path, part), std_path.join(part).to_str().unwrap(), "{path}");
        }
    }
}
