use windrose_server_manager::crypto::hash_token;

#[test]
fn token_digests_are_hex_sha256() {
    assert_eq!(hash_token(""), "e3b0c44298fc1c149afbf4c8996fb92427ae41e4649b934ca495991b7852b855");
    assert_eq!(hash_token("abc"), "ba7816bf8f01cfea414140de5dae2223b00361a396177a9cb410ff61f20015ad");
    assert_eq!(hash_token("token").len(), 64);
    assert_ne!(hash_token("token"), "token");
}
