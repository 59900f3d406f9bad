use io_oauth::form::{parse_query, FormSerializer};

fn is_literal(byte: u8) -> bool {
    byte.is_ascii_alphanumeric() || b"*-._".contains(&byte)
}

fn escaped(text: &str) -> String {
    let mut out = String::new();
    for byte in text.bytes() {
        if is_literal(byte) {
            out.push(byte as char);
        } else if byte == b' ' {
            out.push('+');
        } else {
            out.push('%');
            out.push(char::from_digit((byte / 16) as u32, 16).unwrap().to_ascii_uppercase());
            out.push(char::from_digit((byte % 16) as u32, 16).unwrap().to_ascii_uppercase());
        }
    }
    out
}

fn encoded(pairs: &[(String, String)]) -> String {
    let mut serializer = FormSerializer::new();
    for (name, value) in pairs {
        serializer.append_pair(name, value);
    }
    serializer.finish()
}

fn hex_value(byte: u8) -> Option<u8> {
    (byte as char).to_digit(16).map(|value| value as u8)
}

fn unescaped(piece: &[u8]) -> String {
    let plain: Vec<u8> =
        piece.iter().map(|byte| if *byte == b'+' { b' ' } else { *byte }).collect();
    let mut out = Vec::new();
    let mut i = 0;
    while i < plain.len() {
        if plain[i] == b'%' && i + 2 < plain.len() {
            if let (Some(high), Some(low)) = (hex_value(plain[i + 1]), hex_value(plain[i + 2])) {
                out.push(high * 16 + low);
                i += 3;
                continue;
            }
        }
        out.push(plain[i]);
        i += 1;
    }
    String::from_utf8_lossy(&out).into_owned()
}

fn decoded(input: &[u8]) -> Vec<(String, String)> {
    let mut pairs = Vec::new();
    for piece in input.split(|byte| *byte == b'&') {
        if piece.is_empty() {
            continue;
        }
        let cut = piece.iter().position(|byte| *byte == b'=');
        let (name, value) = match cut {
            Some(at) => (&piece[..at], &piece[at + 1..]),
            None => (piece, &piece[piece.len()..]),
        };
        pairs.push((unescaped(name), unescaped(value)));
    }
    pairs
}

/// A small generator of repeatable numbers.
struct Lcg(u64);

impl Lcg {
    fn next(&mut self) -> u64 {
        self.0 = self.0.wrapping_mul(6364136223846793005).wrapping_add(1442695040888963407);
        self.0 >> 33
    }
}

#[test]
fn every_character_is_escaped_byte_by_byte() {
    for code in (0..0x800u32).chain([0x20AC, 0xFFFD, 0x1_F600, 0x10_FFFF]) {
        let text = char::from_u32(code).unwrap().to_string();
        let pair = vec![(text.clone(), text.clone())];
        assert_eq!(encoded(&pair), format!("{}={}", escaped(&text), escaped(&text)));
    }
}

#[test]
fn pairs_are_joined_by_ampersands() {
    let pairs = vec![
        (String::from("a"), String::from("1")),
        (String::new(), String::new()),
        (String::from("b c"), String::from("d&e=f")),
    ];
    assert_eq!(encoded(&pairs), "a=1&=&b+c=d%26e%3Df");
    assert_eq!(encoded(&pairs[..1]), "a=1");
    assert_eq!(encoded(&pairs[1..2]), "=");
    assert_eq!(encoded(&[]), "");
}

#[test]
fn every_percent_triplet_is_read() {
    for high in 0..=127u8 {
        for low in 0..=127u8 {
            let input = [b'n', b'=', b'%', high, low, b'x'];
            let text = std::str::from_utf8(&input).unwrap();
            assert_eq!(parse_query(text), decoded(&input), "input {:?}", text);
        }
    }
}

#[test]
fn short_and_broken_escapes_are_read() {
    for text in ["%", "%4", "%41", "a=%", "a=%4", "a=%4g", "a=%%41", "a=%4%41", "+=+", "%3D=%26", "a==b", "=", "==", "&=&"] {
        assert_eq!(parse_query(text), decoded(text.as_bytes()), "input {:?}", text);
    }
}

#[test]
fn random_queries_are_read() {
    let alphabet = b"ab&=+%%%12AFaf 0\xC3\xA9~";
    let mut random = Lcg(7);
    for _ in 0..5000 {
        let len = (random.next() % 12) as usize;
        let bytes: Vec<u8> =
            (0..len).map(|_| alphabet[(random.next() % alphabet.len() as u64) as usize]).collect();
        if let Ok(text) = std::str::from_utf8(&bytes) {
            assert_eq!(parse_query(text), decoded(&bytes), "input {:?}", text);
        }
    }
}

#[test]
fn random_pairs_survive_the_round_trip() {
    let alphabet: Vec<char> = "ab&=+% ~*-._/?#\u{e9}\u{20ac}\u{1f600}09AZ".chars().collect();
    let mut random = Lcg(11);
    for _ in 0..2000 {
        let count = (random.next() % 4) as usize;
        let mut pairs = Vec::new();
        for _ in 0..count {
            let mut pair = (String::new(), String::new());
            for _ in 0..(random.next() % 6) {
                pair.0.push(alphabet[(random.next() % alphabet.len() as u64) as usize]);
            }
            for _ in 0..(random.next() % 6) {
                pair.1.push(alphabet[(random.next() % alphabet.len() as u64) as usize]);
            }
            pairs.push(pair);
        }
        let text = encoded(&pairs);
        assert!(text.is_ascii());
        assert_eq!(parse_query(&text), pairs, "text {:?}", text);
    }
}
