use openvscode_farm::secret::{generate_secret, generate_secret_token};

fn is_alphanumeric(s: &str) -> bool {
    s.chars().all(|c| c.is_ascii_alphanumeric())
}

#[test]
fn generated_secret_has_requested_length_and_alphabet() {
    for n in [0usize, 1, 16, 32, 43, 128] {
        let s = generate_secret(n);
        assert_eq!(s.chars().count(), n);
        assert!(is_alphanumeric(&s));
    }
}

#[test]
fn generated_token_is_32_alphanumeric_chars() {
    let s = generate_secret_token();
    assert_eq!(s.len(), 32);
    assert!(is_alphanumeric(&s));
}

#[test]
fn successive_generations_differ() {
    let a = generate_secret(32);
    let b = generate_secret(32);
    assert_ne!(a, b);
}

#[test]
fn large_sample_has_no_collision() {
    let mut seen: Vec<String> = Vec::new();
    for _ in 0..200 {
        let s = generate_secret(32);
        assert!(!seen.contains(&s));
        seen.push(s);
    }
}
