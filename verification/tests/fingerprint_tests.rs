use apt_fingerprint::error::Error;
use apt_fingerprint::fingerprint::{
    build_fingerprint, compose_fingerprint, is_hashable, Profile, DOMAIN_SEGMENT_LEN,
    FINGERPRINT_LEN, SOFTWARE_SEGMENT_LEN, TECHNIQUE_SEGMENT_LEN,
};

const EMPTY_LISTS: &str = "3468f22d494c679d74f38e463221fb8323f497f643e37257c3f7e54f049d8829c41103bb29bf8c0ba0d1df0a4f53cda18c2baa0c0354bb5f9a3ecbe5ed12ab4d8e11ba873c2f11161202b945";
const TWO_AND_TWO: &str = "3468f22d494c679d74f38e463221fb831a9c0a5d31efc7fcdae5bdf369c90edc122d647d6232bcd68782572af3f07df9c866fe76dd92f06febb802112f42c51e9f62c6fad922f6e1132f0977";

fn profile(domain: &str, name: &str, softwares: &str, techniques: &str) -> Profile {
    Profile {
        domain: domain.to_string(),
        name: name.to_string(),
        softwares: softwares.to_string(),
        techniques: techniques.to_string(),
    }
}

fn two_and_two() -> Profile {
    profile(
        "enterprise-attack",
        "APT 28",
        "[\"S0002\",\"S0154\"]",
        "[\"T1059\",\"T1071\"]",
    )
}

#[test]
fn fingerprint_of_empty_lists() {
    let p = profile("enterprise-attack", "TestGroup", "[]", "[]");
    assert_eq!(build_fingerprint(&p), Ok(EMPTY_LISTS.to_string()));
}

#[test]
fn fingerprint_of_two_software_and_two_techniques() {
    assert_eq!(build_fingerprint(&two_and_two()), Ok(TWO_AND_TWO.to_string()));
}

#[test]
fn fingerprint_is_the_same_on_every_call() {
    let p = two_and_two();
    let first = build_fingerprint(&p).unwrap();
    let second = build_fingerprint(&p).unwrap();
    assert_eq!(first, second);
    assert_eq!(first.chars().count(), 152);
    assert_eq!(build_fingerprint(&p.clone()).unwrap(), first);
}

#[test]
fn fingerprint_has_three_hexadecimal_segments() {
    assert_eq!(DOMAIN_SEGMENT_LEN, 32);
    assert_eq!(SOFTWARE_SEGMENT_LEN, 56);
    assert_eq!(TECHNIQUE_SEGMENT_LEN, 64);
    assert_eq!(FINGERPRINT_LEN, 152);
    let fp = build_fingerprint(&two_and_two()).unwrap();
    assert_eq!(fp.len(), 152);
    assert!(fp.chars().all(|c| matches!(c, '0'..='9' | 'a'..='f')));
    assert_eq!(&fp[..32], "3468f22d494c679d74f38e463221fb83");
    assert_eq!(&fp[32..88], "1a9c0a5d31efc7fcdae5bdf369c90edc122d647d6232bcd68782572a");
    assert_eq!(
        &fp[88..],
        "f3f07df9c866fe76dd92f06febb802112f42c51e9f62c6fad922f6e1132f0977"
    );
}

#[test]
fn changing_the_domain_changes_the_first_segment_only() {
    let a = build_fingerprint(&two_and_two()).unwrap();
    let mut q = two_and_two();
    q.domain = "mobile-attack".to_string();
    let b = build_fingerprint(&q).unwrap();
    assert_eq!(&b[..32], "2803abc3019a3c0510da7e156c106ca2");
    assert_ne!(a[..32], b[..32]);
    assert_eq!(a[32..], b[32..]);
}

#[test]
fn changing_the_software_changes_the_second_segment_only() {
    let a = build_fingerprint(&two_and_two()).unwrap();
    let mut q = two_and_two();
    q.softwares = "[]".to_string();
    let b = build_fingerprint(&q).unwrap();
    assert_eq!(&b[32..88], "23f497f643e37257c3f7e54f049d8829c41103bb29bf8c0ba0d1df0a");
    assert_eq!(a[..32], b[..32]);
    assert_ne!(a[32..88], b[32..88]);
    assert_eq!(a[88..], b[88..]);
}

#[test]
fn changing_the_techniques_changes_the_third_segment_only() {
    let a = build_fingerprint(&two_and_two()).unwrap();
    let mut q = two_and_two();
    q.techniques = "[]".to_string();
    let b = build_fingerprint(&q).unwrap();
    assert_eq!(
        &b[88..],
        "4f53cda18c2baa0c0354bb5f9a3ecbe5ed12ab4d8e11ba873c2f11161202b945"
    );
    assert_eq!(a[..88], b[..88]);
    assert_ne!(a[88..], b[88..]);
}

#[test]
fn the_name_is_no_part_of_the_fingerprint() {
    let mut q = two_and_two();
    q.name = "Fancy Bear".to_string();
    assert_eq!(build_fingerprint(&q), Ok(TWO_AND_TWO.to_string()));
}

#[test]
fn white_space_between_tokens_does_not_count() {
    let p = profile(
        "enterprise-attack",
        "APT 28",
        " [ \"S0002\" ,\n\t\"S0154\" ] ",
        "[\"T1059\", \"T1071\"]\r\n",
    );
    assert_eq!(build_fingerprint(&p), Ok(TWO_AND_TWO.to_string()));
}

#[test]
fn members_keep_the_order_of_the_text() {
    let p = profile(
        "mobile-attack",
        "Group",
        "[ { \"name\": \"Mimikatz\", \"id\": \"S0002\" } ]",
        "{ \"z\": 1, \"a\": [ true, null ] }",
    );
    assert_eq!(
        build_fingerprint(&p),
        Ok("2803abc3019a3c0510da7e156c106ca2ca8701e46267513d389321c96d70c36cd0f4c4c0cb0bca64f3a1531237a27af7f61ac856b2f6f65a8ad9b84f6d51ac6dff9e019c4d757b30c5d5d6d8".to_string())
    );
}

#[test]
fn scalar_values_are_hashed_like_any_other() {
    let p = profile("enterprise-attack", "Group", "\"Mimikatz\"", "42");
    assert_eq!(
        build_fingerprint(&p),
        Ok("3468f22d494c679d74f38e463221fb8360472d62f1b19736d0e7893f76c219f91ac370c83011c332db1192c673475cb40a568e8da8a045ced110137e159f890ac4da883b6b17dc651b3a8049".to_string())
    );
}

#[test]
fn the_domain_is_hashed_as_utf8() {
    let p = profile("défense", "Group", "[]", "[]");
    let fp = build_fingerprint(&p).unwrap();
    assert_eq!(&fp[..32], "261cddbc180081ea9193110fdf249f34");
    assert_eq!(fp[32..], EMPTY_LISTS[32..]);
}

#[test]
fn values_written_by_serde_json_are_taken_as_they_are() {
    let softwares = serde_json::Value::Array(vec![
        serde_json::Value::String("S0002".to_string()),
        serde_json::Value::String("S0154".to_string()),
    ]);
    let techniques = serde_json::Value::Array(vec![
        serde_json::Value::String("T1059".to_string()),
        serde_json::Value::String("T1071".to_string()),
    ]);
    let p = profile(
        "enterprise-attack",
        "APT 28",
        &softwares.to_string(),
        &techniques.to_string(),
    );
    assert_eq!(build_fingerprint(&p), Ok(TWO_AND_TWO.to_string()));
}

#[test]
fn malformed_json_is_a_parse_error() {
    for bad in ["", "[1,", "{a:1}", "[] []", "S0002", "[\"a\" \"b\"]"] {
        let p = profile("enterprise-attack", "Group", bad, "[]");
        assert_eq!(build_fingerprint(&p), Err(Error::Parse), "softwares {bad:?}");
        let q = profile("enterprise-attack", "Group", "[]", bad);
        assert_eq!(build_fingerprint(&q), Err(Error::Parse), "techniques {bad:?}");
    }
}

#[test]
fn compose_hashes_the_texts_as_they_stand() {
    assert_eq!(
        compose_fingerprint("enterprise-attack", "[]", "[]"),
        EMPTY_LISTS
    );
    assert_eq!(
        compose_fingerprint(
            "enterprise-attack",
            "[ \"S0002\", \"S0154\" ]",
            "[ \"T1059\", \"T1071\" ]"
        ),
        "3468f22d494c679d74f38e463221fb83127a0a03ed6b8f6a7a2280ba19270d0bdffe49f3ef0feaf56f3af576574702a831d3907b03729fc39db3345d239a2899af842b67e66c1d189b4b5a3d"
    );
}

#[test]
fn compose_of_an_empty_domain() {
    let fp = compose_fingerprint("", "[]", "[]");
    assert_eq!(&fp[..32], "d41d8cd98f00b204e9800998ecf8427e");
    assert_eq!(fp.len(), 152);
}

#[test]
fn ordinary_texts_are_hashable() {
    assert!(is_hashable(""));
    assert!(is_hashable("[\"T1059\",\"T1071\"]"));
}

#[test]
fn error_messages_name_what_went_wrong() {
    assert_eq!(
        Error::InvalidFingerprint.message(),
        "Invalid length, please check your fingerprint, it must be 152 characters long"
    );
    assert!(Error::InvalidFingerprint.message().contains("152"));
    assert!(Error::Parse.message().starts_with("Malformed input"));
    assert!(Error::Oversized.message().starts_with("Input too long"));
}
