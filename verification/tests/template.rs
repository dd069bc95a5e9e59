use sentinel_bot::templates::{parse_templates, serialize_templates, ReasonTemplate};

#[test]
fn serialize_roundtrip() {
    let templates = vec![
        ReasonTemplate { label: "Spam".into(), reason: "Repetition".into() },
        ReasonTemplate { label: "Insulte".into(), reason: "Propos inapproprie".into() },
    ];
    let serialized = serialize_templates(&templates);
    let parsed = parse_templates(&serialized);
    assert_eq!(parsed.len(), 2);
    assert_eq!(parsed[0].label, "Spam");
    assert_eq!(parsed[1].reason, "Propos inapproprie");
}

#[test]
fn serialize_empty() {
    assert_eq!(serialize_templates(&[]), "");
}

#[test]
fn serialize_single() {
    let t = vec![ReasonTemplate { label: "A".into(), reason: "B".into() }];
    assert_eq!(serialize_templates(&t), "A|B");
}
