use kyber_playground::{read_key, HandshakeError};

fn by_std(raw: &str, length: usize) -> Option<Vec<u8>> {
    let mut key = Vec::new();
    for item in raw.split(',') {
        match item.trim().parse::<u8>() {
            Ok(b) => key.push(b),
            Err(_) => return None,
        }
    }
    if key.len() == length {
        Some(key)
    } else {
        None
    }
}

#[test]
fn plain_list_of_bytes() {
    assert_eq!(read_key(b"1,2,3", 3), Ok(vec![1, 2, 3]));
    assert_eq!(read_key(b"0", 1), Ok(vec![0]));
    assert_eq!(read_key(b"255,0,128,17", 4), Ok(vec![255, 0, 128, 17]));
}

#[test]
fn white_space_around_fields_is_ignored() {
    assert_eq!(read_key(b" 1 , 2 ,\n3\n", 3), Ok(vec![1, 2, 3]));
    assert_eq!(read_key(b"\t10\r\n,\x0b20\x0c", 2), Ok(vec![10, 20]));
    assert_eq!(read_key("\u{a0}5\u{2003}".as_bytes(), 1), Ok(vec![5]));
    assert_eq!(read_key("\u{3000}1\u{3000},\u{1680}2\u{85}".as_bytes(), 2), Ok(vec![1, 2]));
    assert_eq!(read_key("\u{2028}7\u{2029},\u{202f}8\u{205f}".as_bytes(), 2), Ok(vec![7, 8]));
}

#[test]
fn plus_sign_and_leading_zeros_are_read() {
    assert_eq!(read_key(b"+7", 1), Ok(vec![7]));
    assert_eq!(read_key(b"007,+000", 2), Ok(vec![7, 0]));
    assert_eq!(read_key(b"0000000000000000000000000000255", 1), Ok(vec![255]));
}

#[test]
fn malformed_fields_are_a_key_load_error() {
    let bad: [&str; 18] = [
        "", " ", ",", "1,,2", "1,2,", ",1", "256", "1000", "99999999999999999999999", "-1", "1 2",
        "0x10", "+", "++1", "+ 1", "1.0", "a", "1;2",
    ];
    for raw in bad.iter() {
        assert_eq!(read_key(raw.as_bytes(), 1), Err(HandshakeError::KeyLoadError));
        assert_eq!(read_key(raw.as_bytes(), 2), Err(HandshakeError::KeyLoadError));
    }
    assert_eq!(read_key("1\u{200b}".as_bytes(), 1), Err(HandshakeError::KeyLoadError));
    assert_eq!(read_key(b"1\xc2", 1), Err(HandshakeError::KeyLoadError));
    assert_eq!(read_key(b"\x85\x31", 1), Err(HandshakeError::KeyLoadError));
}

#[test]
fn a_key_is_never_cut_or_padded() {
    assert_eq!(read_key(b"1,2,3", 2), Err(HandshakeError::KeyLoadError));
    assert_eq!(read_key(b"1,2,3", 4), Err(HandshakeError::KeyLoadError));
    assert_eq!(read_key(b"1,2,3", 0), Err(HandshakeError::KeyLoadError));
    assert_eq!(read_key(b"", 0), Err(HandshakeError::KeyLoadError));
}

#[test]
fn a_full_length_key_is_read() {
    let bytes: Vec<u8> = (0..2592u32).map(|i| (i * 7 % 256) as u8).collect();
    let text: Vec<String> = bytes.iter().map(|b| format!("{}", b)).collect();
    let text = text.join(", ");
    assert_eq!(read_key(text.as_bytes(), 2592), Ok(bytes));
    assert_eq!(read_key(text.as_bytes(), 4864), Err(HandshakeError::KeyLoadError));
}

#[test]
fn agrees_with_split_trim_and_parse() {
    let shapes: [(&str, &str, &str); 6] =
        [("", "1", ",2"), ("1", "", ",2"), ("1,", "2", ""), ("1", "2", ""), ("", "", "1"), ("1", "", "")];
    for code in 0u32..0x3100 {
        let c = match char::from_u32(code) {
            Some(c) => c,
            None => unreachable!(),
        };
        for (before, between, after) in shapes.iter() {
            let raw = format!("{}{}{}{}{}", before, c, between, c, after);
            for length in 1..3 {
                assert_eq!(read_key(raw.as_bytes(), length).ok(), by_std(&raw, length), "{:?}", raw);
            }
        }
    }
}

#[test]
fn agrees_with_parse_on_every_number_up_to_a_thousand() {
    for n in 0u32..1000 {
        for raw in [format!("{}", n), format!("+{}", n), format!("0{}", n), format!(" {} ", n)].iter() {
            assert_eq!(read_key(raw.as_bytes(), 1).ok(), by_std(raw, 1), "{:?}", raw);
        }
    }
}
