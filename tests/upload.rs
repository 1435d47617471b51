use tokkitang::upload::{
    public_url, push_decimal, thumbnail_key, thumbnail_target, ThumbnailKind, BUCKET_URL,
};

#[test]
fn decimal_text() {
    let mut s = String::from("n=");
    push_decimal(&mut s, 0);
    assert_eq!(s, "n=0");
    let mut s = String::new();
    push_decimal(&mut s, 1700000000);
    assert_eq!(s, "1700000000");
    let mut s = String::new();
    push_decimal(&mut s, u64::MAX);
    assert_eq!(s, u64::MAX.to_string());
}

#[test]
fn thumbnail_keys_per_kind() {
    assert_eq!(
        thumbnail_key(ThumbnailKind::User, 1700000000, "image", "a.png"),
        "thumbnail/user/1700000000_image_a.png"
    );
    assert_eq!(thumbnail_key(ThumbnailKind::Team, 5, "f", "b.jpg"), "thumbnail/team/5_f_b.jpg");
    assert_eq!(thumbnail_key(ThumbnailKind::Project, 10, "", ""), "thumbnail/project/10__");
}

#[test]
fn public_url_joins_base_and_key() {
    assert_eq!(
        public_url("https://static.tokkitang.com", "thumbnail/user/1_a_b"),
        "https://static.tokkitang.com/thumbnail/user/1_a_b"
    );
}

#[test]
fn thumbnail_target_uses_current_time() {
    let (key, url) = thumbnail_target(ThumbnailKind::User, "image", "a.png");
    assert!(key.starts_with("thumbnail/user/"));
    assert!(key.ends_with("_image_a.png"));
    let ts: u64 = key["thumbnail/user/".len()..key.len() - "_image_a.png".len()].parse().unwrap();
    assert!(ts > 1_600_000_000);
    assert_eq!(url, format!("{}/{}", BUCKET_URL, key));
}
