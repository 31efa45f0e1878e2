use prodder::text::{
    chars_of, is_blank, is_white_space, push_decimal, same_text, slice_text, starts_with,
};
use prodder::url::{percent_encode, repo_from_url};

#[test]
fn repo_from_url_parses_api_style() {
    assert_eq!(
        repo_from_url("https://api.github.com/repos/DominicBurkart/committer"),
        Some(("DominicBurkart".into(), "committer".into()))
    );
}

#[test]
fn repo_from_url_rejects_junk() {
    assert_eq!(repo_from_url("not a url"), None);
}

#[test]
fn repo_from_url_rejects_empty_repo() {
    assert_eq!(repo_from_url("https://api.github.com/repos/owner/"), None);
}

#[test]
fn percent_encode_search_query() {
    assert_eq!(
        percent_encode("is:open is:pr author:DominicBurkart"),
        "is%3Aopen%20is%3Apr%20author%3ADominicBurkart"
    );
}

#[test]
fn percent_encode_keeps_only_unreserved_bytes() {
    assert_eq!(percent_encode("AZaz09-_.~"), "AZaz09-_.~");
    assert_eq!(percent_encode("/?#&=+%\""), "%2F%3F%23%26%3D%2B%25%22");
    assert_eq!(percent_encode("\u{e9}\u{1f600}\u{0}"), "%C3%A9%F0%9F%98%80%00");
    assert_eq!(percent_encode(""), "");
}

#[test]
fn repo_from_url_takes_what_follows_the_last_mark() {
    let pair = |o: &str, r: &str| Some((o.to_string(), r.to_string()));
    assert_eq!(repo_from_url("owner/repo"), pair("owner", "repo"));
    assert_eq!(repo_from_url("x/repos/a/b/repos/c/d"), pair("c", "d"));
    assert_eq!(repo_from_url("x/repos/a/b///"), pair("a", "b"));
    assert_eq!(repo_from_url("x/repos/a/b/c"), pair("a", "b/c"));
    assert_eq!(repo_from_url("x/repos/repos/b"), None);
    assert_eq!(repo_from_url("x/repos//b"), None);
    assert_eq!(repo_from_url("x/repos/a"), None);
    assert_eq!(repo_from_url(""), None);
}

#[test]
fn repository_urls_read_back() {
    for (owner, repo) in [("DominicBurkart", "PRodder"), ("o", "r"), ("repos2", "repos")] {
        let url = format!("http://localhost:1/repos/{owner}/{repo}");
        assert_eq!(repo_from_url(&url), Some((owner.to_string(), repo.to_string())));
        let want = if repo == "repos" { None } else { Some((owner.to_string(), repo.to_string())) };
        assert_eq!(repo_from_url(&format!("{url}/")), want);
        assert_eq!(repo_from_url(&format!("{url}///")), want);
    }
}

#[test]
fn white_space_is_what_unicode_says() {
    for code in 0..=0x10ffffu32 {
        if let Some(c) = char::from_u32(code) {
            assert_eq!(is_white_space(c), c.is_whitespace(), "{code:x}");
        }
    }
}

#[test]
fn blank_is_empty_once_trimmed() {
    for s in ["", " ", "\u{85}\t", "a", " a ", "\u{200b}", "\u{180e}"] {
        assert_eq!(is_blank(s), s.trim().is_empty(), "{s:?}");
    }
}

#[test]
fn texts_are_compared_by_their_characters() {
    assert!(same_text("", ""));
    assert!(same_text("caf\u{e9}", "caf\u{e9}"));
    assert!(!same_text("caf\u{e9}", "cafe\u{301}"));
    assert!(!same_text("ab", "abc"));
    assert!(!same_text("abc", "abd"));
    assert!(starts_with("caf\u{e9}", "caf"));
    assert!(starts_with("x", ""));
    assert!(!starts_with("ca", "caf"));
    assert!(!starts_with("cafe", "caF"));
}

#[test]
fn characters_are_taken_apart_and_put_together() {
    let chars = chars_of("a\u{e9}\u{1f600}z");
    assert_eq!(chars, vec!['a', '\u{e9}', '\u{1f600}', 'z']);
    assert_eq!(slice_text(&chars, 1, 3), "\u{e9}\u{1f600}");
    assert_eq!(slice_text(&chars, 2, 2), "");
}

#[test]
fn decimal_notation_is_the_usual_one() {
    for n in [0, 7, 9, 10, 11, 99, 100, 1234567890, u64::MAX - 1, u64::MAX] {
        let mut out = "#".to_string();
        push_decimal(&mut out, n);
        assert_eq!(out, format!("#{n}"));
    }
}
