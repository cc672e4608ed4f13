use pai_codec::code_for;
use pai_codec::pai_codes;
use pai_codec::string_for;
use pai_codec::Pai;

/// The documented forward table: the token at each slot 0..=60.
fn forward_table() -> Vec<&'static str> {
    vec![
        "?", "?", "?", "?", "?", "?", "?", "?", "?", "?", // 0..=9
        "?", "1m", "2m", "3m", "4m", "5m", "6m", "7m", "8m", "9m", // 10..=19
        "?", "1p", "2p", "3p", "4p", "5p", "6p", "7p", "8p", "9p", // 20..=29
        "?", "1s", "2s", "3s", "4s", "5s", "6s", "7s", "8s", "9s", // 30..=39
        "?", "E", "S", "W", "N", "P", "F", "C", "?", "?", // 40..=49
        "?", "5mr", "5pr", "5sr", "?", "?", "?", "?", "?", "?", // 50..=59
        "?", // 60
    ]
}

#[test]
fn table_fidelity() {
    let table = forward_table();
    assert_eq!(table.len(), 61);
    for i in 0..=60u8 {
        assert_eq!(string_for(i), table[i as usize]);
    }
}

#[test]
fn token_round_trip() {
    let table = forward_table();
    for (i, token) in table.iter().enumerate() {
        let code = code_for(token);
        assert_eq!(string_for(code), *token);
        if *token != "?" {
            assert_eq!(code as usize, i);
        }
    }
}

#[test]
fn wrap_around() {
    for i in 0..60u8 {
        assert_eq!(string_for(i), string_for(i + 60));
    }
}

#[test]
fn unknown_token_encodes_to_sentinel() {
    assert_eq!(code_for("nonexistent-token"), 0);
    assert_eq!(Pai::from("nonexistent-token"), Pai(0));
    assert_eq!(code_for(""), 0);
    assert_eq!(code_for("5m r"), 0);
    assert_eq!(code_for("10m"), 0);
}

#[test]
fn sentinel_round_trip() {
    assert_eq!(string_for(0), "?");
    assert_eq!(code_for("?"), 0);
    assert_eq!(Pai::from("?"), Pai(0));
}

#[test]
fn equal_strings_unequal_values() {
    let a = Pai(1);
    let b = Pai(61);
    assert_eq!(a.to_human(), "?");
    assert_eq!(b.to_human(), "?");
    assert_eq!(a.to_human(), b.to_human());
    assert_ne!(a, b);
}

#[test]
fn raw_sequence_preserves_codes() {
    let pais = [Pai(11), Pai(21), Pai(0)];
    let codes = pai_codes(&pais);
    assert_eq!(codes, vec![11, 21, 0]);
}

#[test]
fn raw_sequence_of_nothing_is_empty() {
    let codes = pai_codes(&[]);
    assert!(codes.is_empty());
}

#[test]
fn human_form_of_red_five() {
    assert_eq!(Pai(51).to_human(), "5mr");
}

#[test]
fn parse_known_tokens() {
    assert_eq!(Pai::from("1m"), Pai(11));
    assert_eq!(Pai::from("9p"), Pai(29));
    assert_eq!(Pai::from("5s"), Pai(35));
    assert_eq!(Pai::from("E"), Pai(41));
    assert_eq!(Pai::from("C"), Pai(47));
    assert_eq!(Pai::from("5sr"), Pai(53));
}

#[test]
fn every_byte_renders_some_token() {
    let table = forward_table();
    for code in 0..=255u16 {
        let code = code as u8;
        let rendered = Pai(code).to_human();
        assert_eq!(rendered, string_for(code));
        assert_eq!(rendered, table[(code % 60) as usize]);
    }
}
