use stof_cli::perms::{compose_perms, decompose_perms, default_perms, PermSet};

#[test]
fn nine_is_read_and_exec() {
    let p = decompose_perms(9);
    assert!(p.read);
    assert!(!p.write);
    assert!(!p.delete);
    assert!(p.execute);
}

#[test]
fn fifteen_is_everything() {
    let p = decompose_perms(15);
    assert!(p.read && p.write && p.delete && p.execute);
}

#[test]
fn zero_is_nothing() {
    let p = decompose_perms(0);
    assert!(!p.read && !p.write && !p.delete && !p.execute);
}

#[test]
fn compose_inverts_decompose() {
    for v in 0u8..16 {
        assert_eq!(compose_perms(decompose_perms(v)), v);
    }
}

#[test]
fn decompose_inverts_compose() {
    let p = PermSet { read: false, write: true, delete: true, execute: false };
    assert_eq!(decompose_perms(compose_perms(p)), p);
}

#[test]
fn default_is_read_exec() {
    assert_eq!(default_perms(), 9);
}
