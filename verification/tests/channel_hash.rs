use meshtassy_net::channel_hash;

#[test]
fn hash_of_empty_name_is_the_seed() {
    assert_eq!(channel_hash(""), 5381);
}

#[test]
fn hash_of_single_letter() {
    assert_eq!(channel_hash("a"), 177670);
    assert_eq!(channel_hash("a"), 5381 * 33 + 97);
}

#[test]
fn hash_of_two_letters() {
    assert_eq!(channel_hash("ab"), 5863208);
}

#[test]
fn hash_of_preset_names() {
    assert_eq!(channel_hash("LongFast"), 130429955);
    assert_eq!(channel_hash("MediumSlow"), 1461554379);
}

#[test]
fn hash_wraps_around_on_long_names() {
    assert_eq!(
        channel_hash("The quick brown fox jumps over the lazy dog"),
        885799134
    );
}

#[test]
fn hash_reads_utf8_bytes() {
    // U+00E9 is the two bytes 0xC3 0xA9.
    assert_eq!(channel_hash("\u{e9}"), 5866513);
    assert_eq!(channel_hash("\u{e9}"), (5381 * 33 + 0xc3) * 33 + 0xa9);
}

#[test]
fn hash_is_the_same_on_every_run() {
    let name = String::from("LongFast");
    let first = channel_hash(&name);
    let second = channel_hash(&name);
    let third = channel_hash("LongFast");
    assert_eq!(first, second);
    assert_eq!(second, third);
}

#[test]
fn hash_tells_names_apart() {
    assert_ne!(channel_hash("a"), channel_hash("b"));
    assert_ne!(channel_hash("ab"), channel_hash("ba"));
}
