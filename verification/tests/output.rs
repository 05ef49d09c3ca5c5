use hs_gen::i2p::generate_i2p_keys;
use hs_gen::output::{epoch_path, i2p_files, i2p_report, service_dir, tor_files, tor_report};
use hs_gen::tor::generate_tor_keys;

#[test]
fn tor_report_lines() {
    let keys = generate_tor_keys(&[7u8; 32]);
    let text = tor_report(&keys);
    let expected = format!(
        "=== TOR ===\nonion: {}\nsecret_key (base64): {}\npublic_key (base64): {}\n",
        keys.hostname,
        data_encoding::BASE64.encode(&keys.secret_key_file[32..]),
        data_encoding::BASE64.encode(&keys.public_key_file[32..]),
    );
    assert_eq!(text, expected);
}

#[test]
fn i2p_report_lines() {
    let keys = generate_i2p_keys(&[9u8; 64]);
    let text = i2p_report(&keys);
    let expected = format!(
        "=== I2P ===\nb32: {}\ndestination (base64): {}\n",
        keys.b32_address,
        data_encoding::BASE64.encode(&keys.destination_dat[..391]),
    );
    assert_eq!(text, expected);
}

#[test]
fn tor_files_names_and_contents() {
    let keys = generate_tor_keys(&[7u8; 32]);
    let files = tor_files(&keys);
    assert_eq!(files.len(), 3);
    assert_eq!(files[0].name, "hs_ed25519_secret_key");
    assert_eq!(files[0].data, keys.secret_key_file.to_vec());
    assert_eq!(files[1].name, "hs_ed25519_public_key");
    assert_eq!(files[1].data, keys.public_key_file.to_vec());
    assert_eq!(files[2].name, "hostname");
    assert_eq!(files[2].data, keys.hostname.as_bytes().to_vec());
}

#[test]
fn i2p_files_names_and_contents() {
    let keys = generate_i2p_keys(&[9u8; 64]);
    let files = i2p_files(&keys);
    assert_eq!(files.len(), 2);
    assert_eq!(files[0].name, "destination.dat");
    assert_eq!(files[0].data, keys.destination_dat);
    assert_eq!(files[1].name, "destination.b32.i2p");
    assert_eq!(files[1].data, keys.b32_address.as_bytes().to_vec());
}

#[test]
fn service_dir_with_and_without_overwrite() {
    assert_eq!(service_dir(b"/o", 42, "tor", false), b"/o/42/tor".to_vec());
    assert_eq!(service_dir(b"/o", 42, "tor", true), b"/o/tor".to_vec());
    assert_eq!(service_dir(b"/o/", 7, "i2p", false), b"/o/7/i2p".to_vec());
    assert_eq!(service_dir(b"", 7, "i2p", false), b"7/i2p".to_vec());
    assert_eq!(service_dir(b"out", 7, "/abs", true), b"/abs".to_vec());
    let joined = std::path::Path::new("out").join("99").join("tor");
    assert_eq!(service_dir(b"out", 99, "tor", false), joined.to_str().unwrap().as_bytes().to_vec());
}

#[test]
fn epoch_path_joins_like_path_join() {
    assert_eq!(epoch_path("/srv/hs", 42, false), Some("/srv/hs/42".to_string()));
    assert_eq!(epoch_path("/srv/hs/", 42, false), Some("/srv/hs/42".to_string()));
    assert_eq!(epoch_path("", 5, false), Some("5".to_string()));
    assert_eq!(epoch_path("/srv/hs", 42, true), Some("/srv/hs".to_string()));
    let joined = std::path::Path::new("out").join(17u64.to_string()).display().to_string();
    assert_eq!(epoch_path("out", 17, false), Some(joined));
}
