use cef::string::{
    round_trip_chars, string_or_fallback, CefString, CefStringError, CefStringList, CefStringMap,
};

fn text(c: &CefString) -> String {
    c.to_chars().unwrap().into_iter().collect()
}

#[test]
fn ascii_round_trip() {
    let s = "hello world";
    let cs = CefString::from_str(s).unwrap();
    let expected: Vec<u16> = s.encode_utf16().collect();
    assert_eq!(cs.as_units(), &expected);
    let chars = cs.to_chars().unwrap();
    let text: String = chars.into_iter().collect();
    assert_eq!(text, s);
}

#[test]
fn supplementary_plane_round_trip() {
    // Characters outside the basic plane need surrogate pairs.
    let s = "caf\u{e9} \u{1F389}\u{10348}";
    let cs = CefString::from_str(s).unwrap();
    let expected: Vec<u16> = s.encode_utf16().collect();
    assert_eq!(cs.as_units(), &expected);
    let chars = cs.to_chars().unwrap();
    let text: String = chars.into_iter().collect();
    assert_eq!(text, s);
}

#[test]
fn round_trip_chars_matches_input() {
    let s = "A\u{30C6}\u{30B9}\u{30C8} \u{1D11E}";
    let chars = round_trip_chars(s);
    let expected: Vec<char> = s.chars().collect();
    assert_eq!(chars, expected);
}

#[test]
fn encoding_matches_widestring() {
    for s in ["", "plain", "\u{7D}\u{FF}\u{100}\u{FFFD}", "\u{10FFFF}\u{10000}"] {
        let ours = CefString::from_str(s).unwrap();
        let theirs = widestring::U16String::from_str(s);
        assert_eq!(ours.as_units().as_slice(), theirs.as_slice());
        assert_eq!(ours.len(), theirs.len());
    }
}

#[test]
fn interior_nul_is_rejected() {
    let r = CefString::from_str("ab\0cd");
    assert!(matches!(r, Err(CefStringError::Conversion)));
    let r = CefString::from_str("\0");
    assert!(matches!(r, Err(CefStringError::Conversion)));
    assert!(CefString::from_str("abcd").is_ok());
}

#[test]
fn raw_units_with_nul_are_rejected() {
    let r = CefString::from_units(vec![0x61, 0x00, 0x62]);
    assert!(matches!(r, Err(CefStringError::Conversion)));
    let ok = CefString::from_units(vec![0x61, 0x62]).unwrap();
    assert_eq!(ok.as_units(), &vec![0x61, 0x62]);
}

#[test]
fn unpaired_surrogate_fails_decoding() {
    // A lone high surrogate.
    let cs = CefString::from_units(vec![0xD800]).unwrap();
    assert!(matches!(cs.to_chars(), Err(CefStringError::Conversion)));
    // A lone low surrogate.
    let cs = CefString::from_units(vec![0x61, 0xDC00, 0x62]).unwrap();
    assert!(matches!(cs.to_chars(), Err(CefStringError::Conversion)));
    // A high surrogate followed by a non-low unit.
    let cs = CefString::from_units(vec![0xD800, 0x61]).unwrap();
    assert!(matches!(cs.to_chars(), Err(CefStringError::Conversion)));
    // A proper pair decodes.
    let cs = CefString::from_units(vec![0xD83C, 0xDF89]).unwrap();
    let chars = cs.to_chars().unwrap();
    assert_eq!(chars, vec!['\u{1F389}']);
}

#[test]
fn new_encodes_like_from_str() {
    let a = CefString::new("same text");
    let b = CefString::from_str("same text").unwrap();
    assert_eq!(a.as_units(), b.as_units());
}

#[test]
fn default_is_empty() {
    let cs = CefString::default();
    assert_eq!(cs.len(), 0);
    assert_eq!(cs.to_chars().unwrap(), Vec::<char>::new());
}

#[test]
fn string_list_keeps_order() {
    let mut list = CefStringList::default();
    assert_eq!(list.size(), 0);
    assert!(list.get(0).is_none());
    list.append(CefString::new("first"));
    list.append(CefString::new("second"));
    list.append(CefString::new("first"));
    assert_eq!(list.size(), 3);
    assert_eq!(text(&list.get(0).unwrap()), "first");
    assert_eq!(text(&list.get(1).unwrap()), "second");
    assert_eq!(text(&list.get(2).unwrap()), "first");
    assert!(list.get(3).is_none());
    list.clear();
    assert_eq!(list.size(), 0);
}

#[test]
fn string_map_appends_and_looks_up() {
    let mut map = CefStringMap::default();
    assert_eq!(map.size(), 0);
    assert!(map.get(&CefString::new("absent")).is_none());
    assert!(map.append(CefString::new("alpha"), CefString::new("1")).is_none());
    assert!(map.append(CefString::new("beta"), CefString::new("2")).is_none());
    assert_eq!(map.size(), 2);
    assert_eq!(text(&map.get(&CefString::new("alpha")).unwrap()), "1");
    assert_eq!(text(&map.get(&CefString::new("beta")).unwrap()), "2");
    assert!(map.get(&CefString::new("gamma")).is_none());
    assert_eq!(text(&map.get_key_at_index(0).unwrap()), "alpha");
    assert_eq!(text(&map.get_index(1).unwrap()), "2");
    assert!(map.get_index(2).is_none());
}

#[test]
fn string_map_overwrite_keeps_pair_order() {
    // Inserting an existing key overwrites its value in place and hands the
    // old value back, leaving the pair order untouched.
    let mut map = CefStringMap::default();
    map.append(CefString::new("alpha"), CefString::new("1"));
    map.append(CefString::new("beta"), CefString::new("2"));
    let old = map.append(CefString::new("alpha"), CefString::new("3"));
    assert_eq!(text(&old.unwrap()), "1");
    assert_eq!(map.size(), 2);
    assert_eq!(text(&map.get_key_at_index(0).unwrap()), "alpha");
    assert_eq!(text(&map.get_index(0).unwrap()), "3");
    assert_eq!(text(&map.get_key_at_index(1).unwrap()), "beta");
    assert_eq!(text(&map.get_index(1).unwrap()), "2");
    map.clear();
    assert_eq!(map.size(), 0);
    assert!(map.get(&CefString::new("alpha")).is_none());
}

#[test]
fn fallback_substitutes_only_on_absence() {
    let given = CefString::new("present");
    let r = string_or_fallback(Some(given), "unknown error");
    let text: String = r.to_chars().unwrap().into_iter().collect();
    assert_eq!(text, "present");

    let r = string_or_fallback(None, "unknown error");
    let text: String = r.to_chars().unwrap().into_iter().collect();
    assert_eq!(text, "unknown error");
}
