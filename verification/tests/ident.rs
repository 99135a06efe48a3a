use swarm_kit::ident::uuid;
use uuid::Uuid;

#[test]
fn uuid_has_the_shape_of_a_random_uuid() {
    let text = uuid();
    let chars: Vec<char> = text.chars().collect();
    assert_eq!(chars.len(), 36);
    for (i, c) in chars.iter().enumerate() {
        match i {
            8 | 13 | 18 | 23 => assert_eq!(*c, '-'),
            14 => assert_eq!(*c, '4'),
            19 => assert!("89ab".contains(*c)),
            _ => assert!("0123456789abcdef".contains(*c)),
        }
    }
}

#[test]
fn uuid_reads_back() {
    let text = uuid();
    let parsed = Uuid::parse_str(&text).unwrap();
    assert_eq!(parsed.get_version_num(), 4);
    assert_eq!(parsed.to_string(), text);
}

#[test]
fn uuids_differ() {
    assert_ne!(uuid(), uuid());
}
