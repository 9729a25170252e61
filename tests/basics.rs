use fl_signin::{Duration, Error, Instant, Manifest, SigninResident};

#[test]
fn instant_arithmetic() {
    let a = Instant::from_micros(5_000);
    let b = Instant::from_micros(8_500);
    assert_eq!(b.duration_since(a).as_micros(), 3_500);
    assert_eq!(a.elapsed_at(b).as_micros(), 3_500);
    assert_eq!(b.elapsed_at(a).as_micros(), 0);
    assert_eq!(a.checked_add(Duration::from_millis(2)), Some(Instant::from_micros(7_000)));
    assert_eq!(Instant::from_micros(u64::MAX).checked_add(Duration::from_micros(1)), None);
    assert_eq!(a.checked_sub(Duration::from_micros(5_000)), Some(Instant::from_micros(0)));
    assert_eq!(a.checked_sub(Duration::from_micros(5_001)), None);
    assert_eq!(Duration::from_secs(2).as_millis(), 2000);
    assert_eq!(Duration::from_millis(99).as_micros(), 99_000);
}

#[test]
fn avatar_url_falls_back_to_default() {
    let r = SigninResident::default();
    assert_eq!(r.name, "");
    assert_eq!(
        r.avatar_url(),
        "https://www.gravatar.com/avatar/55ea921519aa759f6a15711ad4faea7c?s=200&d=mp"
    );
    let own = SigninResident {
        name: "x".to_string(),
        display_name: None,
        avatar_url: Some("https://example.com/a.png".to_string()),
    };
    assert_eq!(own.avatar_url(), "https://example.com/a.png");
}

fn manifest(base: &str) -> Manifest {
    Manifest {
        site_title: "t".to_string(),
        endpoint: "e".to_string(),
        asset_base_url: base.to_string(),
    }
}

#[test]
fn asset_url_joins_under_base_directory() {
    let m = manifest("https://example.com/assets");
    assert_eq!(
        m.get_asset_url("images/favicon-wide.png").unwrap(),
        "https://example.com/assets/images/favicon-wide.png"
    );
    let m = manifest("https://example.com/assets/");
    assert_eq!(
        m.get_asset_url("images/favicon-wide.png").unwrap(),
        "https://example.com/assets/images/favicon-wide.png"
    );
}

#[test]
fn malformed_base_gives_url_error() {
    let r = manifest("not a url").get_asset_url("images/favicon-wide.png");
    match r {
        Err(e) => {
            assert!(matches!(e, Error::Url(_)));
            assert_eq!(e.message(), "Failed to parse Url.");
        }
        Ok(_) => panic!("expected an error"),
    }
}
