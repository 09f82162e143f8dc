use orjail::host::{HostCall, Origin};
use orjail::hostname::{generate_hostname, hostname_with, set_container_hostname};
use orjail::utils::generate_random_str;

#[test]
fn random_strings_are_alphanumeric() {
    for size in [0usize, 1, 4, 10, 64] {
        let s = generate_random_str(size);
        assert_eq!(s.chars().count(), size);
        assert!(s.chars().all(|c| c.is_ascii_alphanumeric()));
    }
}

#[test]
fn random_strings_differ() {
    let a = generate_random_str(32);
    let b = generate_random_str(32);
    assert_ne!(a, b);
}

#[test]
fn generated_hostname_has_base_and_suffix() {
    let name = generate_hostname().unwrap();
    assert_eq!(name.len(), 11);
    assert!(name.starts_with("orjail-"));
    assert!(name[7..].chars().all(|c| c.is_ascii_alphanumeric()));
}

#[test]
fn hostname_from_suffix() {
    assert_eq!(hostname_with("Ab12"), "orjail-Ab12");
}

#[test]
fn hostname_step_sets_the_name() {
    let step = set_container_hostname(&"orjail-Ab12".to_string());
    assert_eq!(step.call, HostCall::SetHostname { name: "orjail-Ab12".to_string() });
    assert_eq!(step.origin, Origin::SetHostname);
    assert_eq!(step.failure(false, "EPERM"), Some(orjail::errors::Errcode::HostnameError(0)));
}
