use repo_service::ids::{generate_repo_id, generate_submission_id};

fn is_lower_hex(c: char) -> bool {
    c.is_ascii_digit() || ('a'..='f').contains(&c)
}

#[test]
fn repo_id_is_sixteen_lowercase_hex_chars() {
    let id = generate_repo_id();
    assert_eq!(id.chars().count(), 16);
    assert!(id.chars().all(is_lower_hex));
}

#[test]
fn consecutive_repo_ids_differ() {
    let a = generate_repo_id();
    let b = generate_repo_id();
    assert_ne!(a, b);
}

#[test]
fn submission_id_is_a_uuid_string() {
    let id = generate_submission_id();
    let chars: Vec<char> = id.chars().collect();
    assert_eq!(chars.len(), 36);
    for (i, c) in chars.iter().enumerate() {
        match i {
            8 | 13 | 18 | 23 => assert_eq!(*c, '-'),
            14 => assert_eq!(*c, '4'),
            19 => assert!(matches!(*c, '8' | '9' | 'a' | 'b')),
            _ => assert!(is_lower_hex(*c)),
        }
    }
}

#[test]
fn consecutive_submission_ids_differ() {
    let a = generate_submission_id();
    let b = generate_submission_id();
    assert_ne!(a, b);
}
