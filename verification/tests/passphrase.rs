use nmrs::passphrase::Passphrase;

#[test]
fn debug_output_redacts_secret() {
    let passphrase = Passphrase::new("correct horse battery staple".to_string());

    let output = format!("{passphrase:?}");

    assert_eq!(output, "Passphrase([REDACTED])");
    assert!(!output.contains("correct horse battery staple"));
}

#[test]
fn exposes_secret_only_when_requested() {
    let passphrase = Passphrase::new("secret".to_string());

    assert_eq!(passphrase.expose_secret(), "secret");
    assert_eq!(passphrase.len(), 6);
    assert!(!passphrase.is_empty());
}

#[test]
fn length_counts_bytes() {
    assert_eq!(Passphrase::new("pässwörd".to_string()).len(), 10);
    assert_eq!(Passphrase::from("🔑").len(), 4);
}

#[test]
fn default_is_empty() {
    let passphrase = Passphrase::default();

    assert_eq!(passphrase.expose_secret(), "");
    assert_eq!(passphrase.len(), 0);
    assert!(passphrase.is_empty());
}

#[test]
fn conversions_wrap_the_same_secret() {
    let from_str = Passphrase::from("secret");
    let from_string = Passphrase::from("secret".to_string());

    assert_eq!(from_str.expose_secret(), "secret");
    assert_eq!(from_string.expose_secret(), "secret");
    assert!(from_str == from_string);
    assert!(from_str != Passphrase::from("Secret"));
}

#[test]
fn clone_survives_its_source() {
    let passphrase = Passphrase::from("secret");
    let copy = passphrase.clone();
    drop(passphrase);

    assert_eq!(copy.expose_secret(), "secret");
}

#[test]
fn debug_output_is_the_same_for_every_secret() {
    let short = format!("{:?}", Passphrase::from("x"));
    let empty = format!("{:?}", Passphrase::default());

    assert_eq!(short, empty);
    assert_eq!(
        format!("{:?}", Some(Passphrase::from("x"))),
        "Some(Passphrase([REDACTED]))"
    );
    assert_eq!(
        format!("{:#?}", Passphrase::from("x")),
        "Passphrase([REDACTED])"
    );
    assert_eq!(
        format!("{:>40?}", Passphrase::from("x")),
        "Passphrase([REDACTED])"
    );
}

fn wipes_on_drop<T: zeroize::ZeroizeOnDrop>(secret: T) -> bool {
    drop(secret);
    true
}

#[test]
fn dropping_is_known_to_wipe() {
    assert!(wipes_on_drop(Passphrase::from("secret")));
}
