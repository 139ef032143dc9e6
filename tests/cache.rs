use bili_avatar::cache::cache_file_name;
use sha2::Digest;

fn hex16(s: &str) -> String {
    format!("{:x}", sha2::Sha256::digest(s.as_bytes()))[..16].to_string()
}

#[test]
fn cache_name_is_hash_prefix_and_extension() {
    let url = "https://i0.hdslb.com/bfs/face/member/noface.jpg";
    let name = cache_file_name(url);
    assert_eq!(name, format!("{}.jpg", hex16(url)));
    assert_eq!(name.len(), 20);
    assert_ne!(name, url);
}

#[test]
fn cache_name_of_known_digest() {
    assert_eq!(cache_file_name("abc"), "ba7816bf8f01cfea.abc");
    assert_eq!(cache_file_name("a.b.webp"), format!("{}.webp", hex16("a.b.webp")));
    assert_eq!(cache_file_name("x."), format!("{}.", hex16("x.")));
}
