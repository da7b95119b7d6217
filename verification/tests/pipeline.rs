use colorhash::hash::{accumulate, bucket_index};
use colorhash::mapper::map_token;
use colorhash::{bucket_of, color_of, colorize, resolve, ColorHash};

const SAMPLES: [&str; 12] = [
    "",
    "a",
    "0",
    "-",
    "z9",
    "AB",
    "ab",
    "localhost",
    "build-host-17.example.org",
    "MiXeD.Case_42",
    "caf\u{e9}-\u{df}",
    "zzzzzzzzzzzzzzzzzzzzzzzzzzzzzzzzzzzzzzzzzzzzzzzzzzzzzzzzzzzzzzzz",
];

fn sum_of(token: &str) -> u128 {
    accumulate(&map_token(token.as_bytes()))
}

/// Splits `ESC[38;2;R;G;Bm` into its channels, or gives `None` where the
/// text is not of that form.
fn parse_foreground(text: &str) -> Option<(u8, u8, u8)> {
    let body = text.strip_prefix("\x1B[38;2;")?.strip_suffix('m')?;
    let fields: Vec<&str> = body.split(';').collect();
    if fields.len() != 3 {
        return None;
    }
    let mut channels: [u8; 3] = [0; 3];
    for (slot, field) in channels.iter_mut().zip(fields) {
        let plain = !field.is_empty() && field.bytes().all(|b| b.is_ascii_digit());
        let padded = field.len() > 1 && field.starts_with('0');
        if !plain || padded {
            return None;
        }
        *slot = field.parse().ok()?;
    }
    Some((channels[0], channels[1], channels[2]))
}

#[test]
fn empty_token_is_mint() {
    assert_eq!(map_token(b""), Vec::<u32>::new());
    assert_eq!(sum_of(""), 0);
    assert_eq!(bucket_of(""), 0);
    assert_eq!(color_of(""), ColorHash::Mint);
    assert_eq!(resolve(""), "\x1B[38;2;159;242;143m");
}

#[test]
fn token_a_is_lightning() {
    assert_eq!(map_token(b"a"), vec![11]);
    assert_eq!(sum_of("a"), 121);
    assert_eq!(bucket_index(121), 1);
    assert_eq!(bucket_of("a"), 1);
    assert_eq!(color_of("a"), ColorHash::Lightning);
    assert_eq!(resolve("a"), "\x1B[38;2;255;205;28m");
}

#[test]
fn token_zero_digit_is_lightning() {
    assert_eq!(map_token(b"0"), vec![1]);
    assert_eq!(sum_of("0"), 1);
    assert_eq!(bucket_of("0"), 1);
    assert_eq!(color_of("0"), ColorHash::Lightning);
}

#[test]
fn token_hyphen_is_mint() {
    assert_eq!(map_token(b"-"), vec![0]);
    assert_eq!(sum_of("-"), 0);
    assert_eq!(bucket_of("-"), 0);
    assert_eq!(color_of("-"), ColorHash::Mint);
}

#[test]
fn token_z9_is_lightning() {
    assert_eq!(map_token(b"z9"), vec![36, 10]);
    assert_eq!(sum_of("z9"), 1296 + 100);
    assert_eq!(sum_of("z9"), 1396);
    assert_eq!(bucket_of("z9"), 1);
    assert_eq!(color_of("z9"), ColorHash::Lightning);
}

#[test]
fn token_upper_ab_equals_lower_ab() {
    assert_eq!(map_token(b"AB"), vec![11, 12]);
    assert_eq!(map_token(b"AB"), map_token(b"ab"));
    assert_eq!(sum_of("AB"), 121 + 144);
    assert_eq!(sum_of("AB"), 265);
    assert_eq!(bucket_of("AB"), 0);
    assert_eq!(bucket_of("AB"), bucket_of("ab"));
    assert_eq!(color_of("AB"), ColorHash::Mint);
    assert_eq!(color_of("ab"), ColorHash::Mint);
    assert_eq!(resolve("AB"), resolve("ab"));
}

#[test]
fn every_palette_entry_is_reachable() {
    assert_eq!(color_of("-"), ColorHash::Mint);
    assert_eq!(color_of("a"), ColorHash::Lightning);
    // 1 + 1 = 2, 1 + 1 + 1 = 3, 4 ones = 4
    assert_eq!(color_of("00"), ColorHash::Delta);
    assert_eq!(color_of("000"), ColorHash::Bossanova);
    assert_eq!(color_of("0000"), ColorHash::Apricot);
    assert_eq!(color_of("00000"), ColorHash::Mint);
}

#[test]
fn pipeline_is_deterministic() {
    for token in SAMPLES {
        let again: String = token.to_string();
        assert_eq!(bucket_of(token), bucket_of(token));
        assert_eq!(bucket_of(token), bucket_of(&again));
        assert_eq!(color_of(token), color_of(&again));
        assert_eq!(resolve(token), resolve(&again));
        assert_eq!(colorize(token), colorize(&again));
    }
}

#[test]
fn bucket_is_always_in_range() {
    for token in SAMPLES {
        assert!(bucket_of(token) < 5, "token {:?}", token);
    }
    for b in 0u8..=127 {
        let token = String::from_utf8(vec![b, b'x', b]).unwrap();
        assert!(bucket_of(&token) <= 4);
    }
}

#[test]
fn bucket_is_the_sum_modulo_five() {
    for token in SAMPLES {
        assert_eq!(u128::from(bucket_of(token)), sum_of(token) % 5);
        assert_eq!(bucket_of(token), bucket_index(sum_of(token)));
    }
}

#[test]
fn color_is_the_entry_at_the_bucket() {
    for token in SAMPLES {
        assert_eq!(color_of(token), ColorHash::from(bucket_of(token)));
        assert_eq!(resolve(token), color_of(token).code());
    }
}

#[test]
fn case_does_not_matter() {
    for token in SAMPLES {
        let upper = token.to_ascii_uppercase();
        let lower = token.to_ascii_lowercase();
        assert_eq!(bucket_of(&upper), bucket_of(token));
        assert_eq!(bucket_of(&lower), bucket_of(token));
        assert_eq!(color_of(&upper), color_of(token));
        assert_eq!(resolve(&upper), resolve(token));
    }
}

#[test]
fn multibyte_characters_count_as_zero_per_byte() {
    assert_eq!(sum_of("\u{e9}"), 0);
    assert_eq!(bucket_of("\u{e9}"), 0);
    assert_eq!(sum_of("a\u{e9}"), 121);
    assert_eq!(bucket_of("a\u{e9}"), bucket_of("a"));
    assert_eq!(color_of("\u{65e5}\u{672c}"), ColorHash::Mint);
}

#[test]
fn full_length_hostname_of_z() {
    let token = SAMPLES[11];
    assert_eq!(token.len(), 64);
    assert_eq!(sum_of(token), 64 * 1296);
    assert_eq!(bucket_of(token), 4);
    assert_eq!(color_of(token), ColorHash::Apricot);
}

#[test]
fn long_token_does_not_overflow() {
    let token: String = "z".repeat(3_400_000);
    assert_eq!(sum_of(&token), 4_406_400_000);
    assert_eq!(bucket_of(&token), 0);
    assert_eq!(color_of(&token), ColorHash::Mint);
}

#[test]
fn escape_sequence_has_the_fixed_format() {
    let triples: [(u8, u8, u8); 5] = [
        (159, 242, 143),
        (255, 205, 28),
        (111, 68, 240),
        (69, 40, 89),
        (244, 120, 104),
    ];
    for token in SAMPLES {
        let sequence = resolve(token);
        let parsed = parse_foreground(&sequence);
        assert!(parsed.is_some(), "token {:?} gave {:?}", token, sequence);
        let triple = parsed.unwrap();
        assert!(triples.contains(&triple));
        assert_eq!(triple, color_of(token).rgb());
        assert_eq!(sequence.as_bytes()[0], 0x1B);
        assert!(sequence.is_ascii());
    }
}

#[test]
fn resolve_adds_neither_token_nor_reset() {
    assert_eq!(resolve("localhost"), color_of("localhost").code());
    assert!(!resolve("localhost").contains("localhost"));
    assert!(!resolve("localhost").ends_with("\x1B[0m"));
    assert!(!resolve("localhost").ends_with('\n'));
}

#[test]
fn colorize_wraps_the_token() {
    assert_eq!(colorize("a"), "\x1B[38;2;255;205;28ma\x1B[0m");
    assert_eq!(colorize(""), "\x1B[38;2;159;242;143m\x1B[0m");
    assert_eq!(colorize("z9"), "\x1B[38;2;255;205;28mz9\x1B[0m");
    assert_eq!(colorize("0000"), "\x1B[38;2;244;120;104m0000\x1B[0m");
}

#[test]
fn colorize_keeps_the_token_as_given() {
    assert_eq!(colorize("AB"), "\x1B[38;2;159;242;143mAB\x1B[0m");
    assert_eq!(colorize("ab"), "\x1B[38;2;159;242;143mab\x1B[0m");
    assert_eq!(colorize("caf\u{e9}"), format!("{}caf\u{e9}\x1B[0m", resolve("caf\u{e9}")));
    for token in SAMPLES {
        let text = colorize(token);
        assert_eq!(text, format!("{}{}{}", resolve(token), token, "\x1B[0m"));
        assert!(!text.ends_with('\n'));
    }
}
