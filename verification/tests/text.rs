use epic_wallet::build_script::directives;
use epic_wallet::types::{PublicKey, Uuid};

#[test]
fn uuid_text() {
    let bytes = [4, 54, 67, 12, 43, 2, 98, 76, 32, 50, 87, 5, 1, 33, 43, 255];
    let id = Uuid::from_slice(&bytes).unwrap();
    assert_eq!(id.bytes, bytes);
    assert_eq!(id.to_string(), "0436430c-2b02-624c-2032-570501212bff");
}

#[test]
fn uuid_needs_sixteen_bytes() {
    assert!(Uuid::from_slice(&[0; 15]).is_none());
    assert!(Uuid::from_slice(&[0; 17]).is_none());
    assert!(Uuid::from_slice(&[]).is_none());
}

#[test]
fn addresses_are_the_same_in_every_byte() {
    let a = PublicKey { bytes: [3; 32] };
    let mut b = a;
    assert!(a.same_as(&b));
    b.bytes[31] = 4;
    assert!(!a.same_as(&b));
    b = a;
    b.bytes[0] = 4;
    assert!(!a.same_as(&b));
}

#[test]
fn build_lines_without_warnings() {
    assert_eq!(
        directives(false, Some("4.0.1")),
        vec![
            "cargo:rerun-if-changed=build.rs",
            "cargo:rustc-cfg=sqlite_bundled",
            "cargo:warning=Building Epic Wallet with bundled SQLite for version 4.0.1",
            "cargo:rustc-cfg=bundled_sqlite",
            "cargo:rustc-check-cfg=cfg(bundled_sqlite)",
        ]
    );
}

#[test]
fn build_lines_with_warnings() {
    assert_eq!(
        directives(true, None),
        vec![
            "cargo:rerun-if-changed=build.rs",
            "cargo:warning=SQLITE3_LIB_DIR is set, but bundled SQLite should be used instead",
            "cargo:warning=Unsetting SQLITE3_LIB_DIR to force bundled SQLite",
            "cargo:rustc-cfg=sqlite_bundled",
            "cargo:warning=Building Epic Wallet with bundled SQLite for version unknown",
            "cargo:rustc-cfg=bundled_sqlite",
            "cargo:rustc-check-cfg=cfg(bundled_sqlite)",
        ]
    );
}
