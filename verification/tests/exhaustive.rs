use tough::http::{build_request, parse_response, parse_status_err, HttpResult, RetryState};
use tough::loader::root_request;
use tough::paths::{glob_match, starts_with};
use tough::{ClientSettings, RetryRead};

#[test]
fn every_number_is_sorted_as_a_status() {
    for status in 0..=u16::MAX {
        let error = if (500..600).contains(&status) {
            HttpResult::Retryable
        } else if status == 403 || status == 404 {
            HttpResult::FileNotFound
        } else {
            HttpResult::Fatal
        };
        let expected = if (200..300).contains(&status) { HttpResult::Success } else { error };
        assert_eq!(parse_status_err(status), error, "status {}", status);
        assert_eq!(parse_response(status), expected, "status {}", status);
    }
}

#[test]
fn every_status_is_sorted_as_the_http_crate_sorts_it() {
    for status in 100..1000u16 {
        let code = reqwest::StatusCode::from_u16(status).unwrap();
        assert_eq!(parse_response(status) == HttpResult::Success, code.is_success());
        assert_eq!(parse_status_err(status) == HttpResult::Retryable, code.is_server_error());
    }
}

#[test]
fn every_byte_is_text_or_not() {
    for byte in 0..=u8::MAX {
        let mut value = b"bytes".to_vec();
        value.push(byte);
        let read = RetryRead {
            retry_state: RetryState::new(100),
            settings: ClientSettings::default(),
            accept_ranges: Some(value.clone()),
            url: "http://example.com/a".to_string(),
        };
        let text = (32..127).contains(&byte) || byte == b'\t';
        assert_eq!(read.supports_range(), text, "byte {}", byte);
        let header = reqwest::header::HeaderValue::from_bytes(&value);
        assert_eq!(header.map(|h| h.to_str().is_ok()).unwrap_or(false), text, "byte {}", byte);
    }
}

#[test]
fn ranges_are_written_in_decimal() {
    let mut offsets: Vec<usize> = (1..2_000).collect();
    let mut power: usize = 1;
    while let Some(next) = power.checked_mul(10) {
        offsets.extend([next - 1, next, next + 1]);
        power = next;
    }
    offsets.extend([usize::MAX - 1, usize::MAX]);
    for offset in offsets {
        let request = build_request(offset, "http://example.com/a");
        assert_eq!(request.range, Some(format!("bytes={}-", offset)));
    }
}

#[test]
fn versions_are_written_in_decimal() {
    for version in [0u64, 1, 9, 10, 11, 99, 100, 101, 12_345, u64::MAX - 1, u64::MAX] {
        assert_eq!(root_request(version, 1).filename, format!("{}.root.json", version));
    }
}

/// What a pattern matches, told in the plainest way: a star takes nothing,
/// or one byte and then whatever a star takes.
fn matches(pattern: &[u8], text: &[u8]) -> bool {
    match pattern.split_first() {
        None => text.is_empty(),
        Some((b'*', rest)) => {
            matches(rest, text) || (!text.is_empty() && matches(pattern, &text[1..]))
        }
        Some((byte, rest)) => {
            !text.is_empty() && *byte == text[0] && matches(rest, &text[1..])
        }
    }
}

fn words(alphabet: &[u8], longest: usize) -> Vec<Vec<u8>> {
    let mut all = vec![vec![]];
    let mut last = vec![vec![]];
    for _ in 0..longest {
        let mut next = Vec::new();
        for word in &last {
            for letter in alphabet {
                let mut longer = word.clone();
                longer.push(*letter);
                next.push(longer);
            }
        }
        all.extend(next.iter().cloned());
        last = next;
    }
    all
}

#[test]
fn every_short_pattern_matches_what_it_should() {
    let patterns = words(b"ab*", 4);
    let texts = words(b"ab", 5);
    for pattern in &patterns {
        for text in &texts {
            assert_eq!(
                glob_match(pattern, text),
                matches(pattern, text),
                "pattern {:?}, text {:?}",
                String::from_utf8_lossy(pattern),
                String::from_utf8_lossy(text)
            );
        }
    }
}

#[test]
fn a_star_in_the_text_is_a_byte_like_any_other() {
    assert!(glob_match(b"a*", b"a*"));
    assert!(glob_match(b"*", b"*"));
    assert!(glob_match(b"a*c", b"a*c"));
    assert!(!glob_match(b"a", b"*"));
}

#[test]
fn every_short_prefix_is_found() {
    let texts = words(b"ab", 4);
    for text in &texts {
        for prefix in &texts {
            assert_eq!(starts_with(text, prefix), text.starts_with(prefix));
        }
    }
}
