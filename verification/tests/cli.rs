use hs_gen::cli::{check_args, trim_line_end, trim_password, ArgError};

#[test]
fn neither_network_means_both() {
    assert_eq!(check_args(false, false, 3600, false, false), Ok((true, true)));
    assert_eq!(check_args(true, false, 3600, false, false), Ok((true, false)));
    assert_eq!(check_args(false, true, 3600, false, false), Ok((false, true)));
}

#[test]
fn validity_below_sixty_is_refused() {
    assert_eq!(check_args(true, false, 30, false, false), Err(ArgError::ValidityTooSmall));
    assert_eq!(check_args(true, false, 59, true, false), Err(ArgError::ValidityTooSmall));
    assert_eq!(check_args(true, false, 60, false, false), Ok((true, false)));
    assert_eq!(ArgError::ValidityTooSmall.message(), "error: --validity must be >= 60 seconds");
}

#[test]
fn daemon_requires_output_dir() {
    assert_eq!(check_args(true, true, 120, true, false), Err(ArgError::DaemonNeedsOutputDir));
    assert_eq!(check_args(true, true, 120, true, true), Ok((true, true)));
    assert_eq!(ArgError::DaemonNeedsOutputDir.message(), "error: --daemon requires --output-dir");
}

#[test]
fn password_loses_one_line_ending() {
    let mut a = b"secret\r\n".to_vec();
    trim_password(&mut a);
    assert_eq!(a, b"secret".to_vec());
    let mut b = b"secret\n\n".to_vec();
    trim_password(&mut b);
    assert_eq!(b, b"secret\n".to_vec());
    let mut c = b"secret".to_vec();
    trim_password(&mut c);
    assert_eq!(c, b"secret".to_vec());
    let mut d = Vec::new();
    trim_password(&mut d);
    assert!(d.is_empty());
}

#[test]
fn daemon_password_loses_all_line_endings() {
    assert_eq!(trim_line_end(b"pw\r\n\n\r"), b"pw".to_vec());
    assert_eq!(trim_line_end(b"p\nw"), b"p\nw".to_vec());
    assert_eq!(trim_line_end(b"\n"), Vec::<u8>::new());
}
