use url_shortener::utils::{
    clean_whitespace, decode_short_code_to_id, encode_id_to_short_code, expires_at_from_hours,
    format_duration, generate_secure_token, generate_short_code, generate_short_code_with_length,
    hex_encode, is_valid_short_code, is_valid_url, mask_string, normalize_url, truncate,
    Base62Error, DEFAULT_SHORT_CODE_LENGTH,
};

#[test]
fn url_service_test_url_validation() {
    assert!(is_valid_url("https://example.com"));
    assert!(!is_valid_url("not-a-url"));
}

#[test]
fn test_short_code_generation() {
    let code = generate_short_code();
    assert!(is_valid_short_code(&code));
}

#[test]
fn test_generate_short_code() {
    let code = generate_short_code();
    assert_eq!(code.len(), DEFAULT_SHORT_CODE_LENGTH);
    assert!(is_valid_short_code(&code));
}

#[test]
fn test_generate_short_code_with_length() {
    for len in [5, 10, 15] {
        let code = generate_short_code_with_length(len);
        assert_eq!(code.len(), len);
    }
}

#[test]
fn test_valid_short_code() {
    assert!(is_valid_short_code("abc123"));
    assert!(is_valid_short_code("ABC-xyz_123"));
    assert!(!is_valid_short_code("ab"));
    assert!(!is_valid_short_code("abc 123"));
    assert!(!is_valid_short_code("abc@123"));
}

#[test]
fn test_valid_url() {
    assert!(is_valid_url("https://example.com"));
    assert!(is_valid_url("http://example.com/path?q=1"));
    assert!(!is_valid_url("ftp://example.com"));
    assert!(!is_valid_url("not a url"));
}

#[test]
fn test_truncate() {
    assert_eq!(truncate("short", Some(10)), "short");
    assert_eq!(truncate("this is a long text", Some(10)), "this is...");
}

#[test]
fn mod_test_format_duration() {
    assert_eq!(format_duration(30), "30s");
    assert_eq!(format_duration(90), "1m 30s");
    assert_eq!(format_duration(3661), "1h 1m 1s");
}

#[test]
fn test_base62_encoding() {
    let id = 123456789u64;
    let encoded = encode_id_to_short_code(id);
    let decoded = decode_short_code_to_id(&encoded).unwrap();
    assert_eq!(id, decoded);
}

#[test]
fn test_mask_string() {
    assert_eq!(mask_string("secret123", 3), "sec***");
    assert_eq!(mask_string("ab", 5), "**");
}

#[test]
fn test_generate_short_code_length() {
    let code = generate_short_code();
    assert_eq!(code.len(), DEFAULT_SHORT_CODE_LENGTH);
}

#[test]
fn test_short_codes_are_unique() {
    let codes: Vec<String> = (0..100).map(|_| generate_short_code()).collect();

    let unique: std::collections::HashSet<_> = codes.iter().collect();
    assert_eq!(unique.len(), codes.len());
}

#[test]
fn integration_tests_test_url_validation() {
    assert!(is_valid_url("https://example.com"));
    assert!(is_valid_url("http://example.com/path"));
    assert!(is_valid_url("https://sub.example.com/path?query=1"));

    assert!(!is_valid_url("ftp://example.com"));
    assert!(!is_valid_url("not a url"));
    assert!(!is_valid_url(""));
}

#[test]
fn test_short_code_validation() {
    assert!(is_valid_short_code("abc123"));
    assert!(is_valid_short_code("ABC-xyz_123"));

    assert!(!is_valid_short_code("ab"));
    assert!(!is_valid_short_code("abc 123"));
    assert!(!is_valid_short_code("abc@123"));
}

#[test]
fn test_truncate_function() {
    assert_eq!(truncate("short", Some(10)), "short");
    assert_eq!(truncate("this is long", Some(7)), "this...");
}

#[test]
fn integration_tests_test_format_duration() {
    assert_eq!(format_duration(30), "30s");
    assert_eq!(format_duration(90), "1m 30s");
    assert_eq!(format_duration(3661), "1h 1m 1s");
}

#[test]
fn test_base62_roundtrip() {
    for id in [1u64, 42, 123456789, u64::MAX] {
        let encoded = encode_id_to_short_code(id);
        let decoded = decode_short_code_to_id(&encoded).unwrap();
        assert_eq!(id, decoded);
    }
}

#[test]
fn benchmark_short_code_generation() {
    let iterations = 10_000;
    let start = std::time::Instant::now();

    for _ in 0..iterations {
        let _ = generate_short_code();
    }

    let duration = start.elapsed();
    let per_operation = duration / iterations;

    println!("Generated {} short codes in {:?}", iterations, duration);
    println!("Average: {:?} per code", per_operation);

    assert!(per_operation.as_millis() < 1);
}

#[test]
fn generated_codes_are_valid() {
    for len in 5usize..20 {
        let code = generate_short_code_with_length(len);
        assert_eq!(code.len(), len);
        assert!(is_valid_short_code(&code));
        assert!(code.chars().all(|c| c.is_ascii_alphanumeric()));
    }
    assert_eq!(generate_short_code_with_length(0), "");
}

#[test]
fn base62_roundtrip() {
    let mut id: u64 = 0;
    for step in 0..500u64 {
        let encoded = encode_id_to_short_code(id);
        let decoded = decode_short_code_to_id(&encoded);
        assert_eq!(decoded.ok(), Some(id));
        id = id.wrapping_mul(6364136223846793005).wrapping_add(1442695040888963407 + step);
    }
}

#[test]
fn base62_known_values_and_failures() {
    assert_eq!(encode_id_to_short_code(0), "0");
    assert_eq!(encode_id_to_short_code(61), "z");
    assert_eq!(encode_id_to_short_code(62), "10");
    assert_eq!(encode_id_to_short_code(1337), "LZ");
    assert_eq!(decode_short_code_to_id("LZ"), Ok(1337));
    assert_eq!(decode_short_code_to_id(""), Err(Base62Error::EmptyInput));
    assert_eq!(decode_short_code_to_id("ab-c"), Err(Base62Error::InvalidBase62Byte(b'-', 2)));
    assert_eq!(decode_short_code_to_id("LygHa16AHYF"), Ok(u64::MAX));
    assert_eq!(decode_short_code_to_id("LygHa16AHYG"), Err(Base62Error::ArithmeticOverflow));
    assert_eq!(
        decode_short_code_to_id("zzzzzzzzzzzzzzzzzzzzzzzzzzzzzz"),
        Err(Base62Error::ArithmeticOverflow)
    );
}

#[test]
fn short_code_length_bounds() {
    assert!(is_valid_short_code("abc"));
    assert!(is_valid_short_code(&"a".repeat(20)));
    assert!(!is_valid_short_code(&"a".repeat(21)));
    assert!(!is_valid_short_code(""));
    assert!(!is_valid_short_code("abcé"));
    assert!(!is_valid_short_code("abc\n"));
    assert!(is_valid_short_code("_-_"));
}

#[test]
fn url_length_and_scheme_bounds() {
    let base = "https://example.com/";
    let fits = format!("{}{}", base, "a".repeat(2048 - base.len()));
    assert_eq!(fits.len(), 2048);
    assert!(is_valid_url(&fits));
    let too_long = format!("{}a", fits);
    assert!(!is_valid_url(&too_long));
    assert!(is_valid_url("HTTP://EXAMPLE.COM"));
    assert!(!is_valid_url("javascript:alert(1)"));
    assert!(!is_valid_url("mailto:someone@example.com"));
    assert!(!is_valid_url("//example.com"));
}

#[test]
fn normalize_strips_trailing_slashes() {
    assert_eq!(normalize_url("https://example.com"), Some("https://example.com".to_string()));
    assert_eq!(normalize_url("HTTPS://Example.COM/a/b/"), Some("https://example.com/a/b".to_string()));
    assert_eq!(normalize_url("https://example.com/a///"), Some("https://example.com/a".to_string()));
    assert_eq!(normalize_url("not a url"), None);
}

#[test]
fn truncate_counts_bytes_and_cuts_at_characters() {
    assert_eq!(truncate("exactly10!", Some(10)), "exactly10!");
    assert_eq!(truncate("exactly11!!", Some(10)), "exactly...");
    assert_eq!(truncate("abcd", Some(3)), "...");
    assert_eq!(truncate("ééééé", Some(8)), "ééé...");
    assert_eq!(truncate("ééééé", Some(7)), "éé...");
    assert_eq!(truncate("", Some(0)), "");
    let long = "x".repeat(150);
    assert_eq!(truncate(&long, None), format!("{}...", "x".repeat(97)));
    assert_eq!(truncate(&"x".repeat(100), None), "x".repeat(100));
}

#[test]
fn clean_whitespace_joins_words() {
    assert_eq!(clean_whitespace("  hello   world \n"), "hello world");
    assert_eq!(clean_whitespace("one"), "one");
    assert_eq!(clean_whitespace(""), "");
    assert_eq!(clean_whitespace(" \t\n "), "");
    assert_eq!(clean_whitespace("a\u{a0}b\u{2003}c"), "a b c");
    assert_eq!(clean_whitespace("tab\tseparated\twords"), "tab separated words");
}

#[test]
fn format_duration_edge_cases() {
    assert_eq!(format_duration(0), "0s");
    assert_eq!(format_duration(59), "59s");
    assert_eq!(format_duration(60), "1m 0s");
    assert_eq!(format_duration(3600), "1h 0m 0s");
    assert_eq!(format_duration(86_399), "23h 59m 59s");
    assert_eq!(format_duration(-5), "-5s");
    assert_eq!(format_duration(-3661), "-1s");
    assert_eq!(format_duration(-60), "0s");
    assert_eq!(format_duration(i64::MAX), "2562047788015215h 30m 7s");
}

#[test]
fn secure_token_is_hexadecimal() {
    let token = generate_secure_token(32);
    assert_eq!(token.len(), 32);
    assert!(token.chars().all(|c| c.is_ascii_digit() || ('a'..='f').contains(&c)));
    assert_eq!(generate_secure_token(7).len(), 6);
    assert_eq!(generate_secure_token(1), "");
    assert_ne!(generate_secure_token(32), generate_secure_token(32));
    assert_eq!(hex_encode(&vec![0x00, 0x0f, 0xa5, 0xff]), "000fa5ff");
}

#[test]
fn mask_string_counts_bytes() {
    assert_eq!(mask_string("secret", 6), "******");
    assert_eq!(mask_string("secret", 0), "***");
    assert_eq!(mask_string("", 0), "");
    assert_eq!(mask_string("éé", 3), "éé***");
    assert_eq!(mask_string("éé", 4), "****");
    assert_eq!(mask_string("héllo", 2), "hé***");
}

#[test]
fn expiry_from_hours_lies_in_the_future() {
    let before = url_shortener::time::Timestamp::now();
    let expiry = expires_at_from_hours(2);
    assert!(expiry.secs >= before.secs + 7200);
    assert!(expiry.secs <= before.secs + 7200 + 5);
}

#[test]
fn white_space_is_the_unicode_set() {
    let listed = |c: char| {
        matches!(
            c,
            ' ' | '\u{9}'..='\u{d}'
                | '\u{85}'
                | '\u{a0}'
                | '\u{1680}'
                | '\u{2000}'..='\u{200a}'
                | '\u{2028}'
                | '\u{2029}'
                | '\u{202f}'
                | '\u{205f}'
                | '\u{3000}'
        )
    };
    let mut white = 0;
    for code in 0u32..=0x10FFFF {
        let c = match char::from_u32(code) {
            Some(c) => c,
            None => continue,
        };
        assert_eq!(c.is_whitespace(), listed(c), "U+{:04X}", code);
        if code > 0xFFFF && code % 4099 != 0 {
            continue;
        }
        let cleaned = clean_whitespace(&format!("a{}b", c));
        if listed(c) {
            white += 1;
            assert_eq!(cleaned, "a b", "U+{:04X}", code);
        } else {
            assert_eq!(cleaned, format!("a{}b", c), "U+{:04X}", code);
        }
    }
    assert_eq!(white, 25);
}

#[test]
fn cleaned_text_is_tidy() {
    for text in ["  hello   world  ", "\ta\u{3000}\u{a0} b\n\nc ", " ", "x", "a  b"] {
        let cleaned = clean_whitespace(text);
        assert!(!cleaned.contains("  "));
        assert!(!cleaned.starts_with(' ') && !cleaned.ends_with(' '));
        assert!(cleaned.chars().all(|c| c == ' ' || !c.is_whitespace()));
    }
    assert_eq!(clean_whitespace("  hello   world  "), "hello world");
}

#[test]
fn base62_numerals_use_digits_then_capitals_then_small_letters() {
    let digits = "0123456789ABCDEFGHIJKLMNOPQRSTUVWXYZabcdefghijklmnopqrstuvwxyz";
    for (value, digit) in digits.chars().enumerate() {
        assert_eq!(encode_id_to_short_code(value as u64), digit.to_string());
        assert_eq!(decode_short_code_to_id(&digit.to_string()), Ok(value as u64));
    }
    assert_eq!(encode_id_to_short_code(62 * 62 + 61), "10z");
    assert_eq!(encode_id_to_short_code(u64::MAX), "LygHa16AHYF");
    let numeral = |mut n: u64| {
        let mut out = Vec::new();
        loop {
            out.push(digits.as_bytes()[(n % 62) as usize] as char);
            n /= 62;
            if n == 0 {
                break;
            }
        }
        out.iter().rev().collect::<String>()
    };
    for n in [0u64, 61, 62, 3843, 3844, 123456789, u64::MAX - 1, u64::MAX] {
        assert_eq!(encode_id_to_short_code(n), numeral(n));
    }
}
