use go_updater::{GoVersionError, RealFs, RealSys};
use sha2::{Digest, Sha256};

#[test]
fn real_fs_verify_sha256_ok() {
    let fsimpl = RealFs;
    let mut h = Sha256::new();
    h.update(b"hello");
    let expected = hex::encode(h.finalize());
    assert_eq!(fsimpl.check_sha256(b"hello", &expected), Ok(()));
}

#[test]
fn real_fs_verify_sha256_mismatch() {
    let fsimpl = RealFs;
    let err = fsimpl.check_sha256(b"hello", "deadbeef").unwrap_err();
    assert!(err.message().contains("hash mismatch"));
    assert_eq!(err.expected, "deadbeef");
    assert_eq!(err.got, "2cf24dba5fb0a30e26e83b2ac5b9e29e1b161e5c1fa7425e73043362938b9824");
}

#[test]
fn checksum_ignores_case_of_published_digest() {
    let fsimpl = RealFs;
    let upper = "2CF24DBA5FB0A30E26E83B2AC5B9E29E1B161E5C1FA7425E73043362938B9824";
    assert_eq!(fsimpl.check_sha256(b"hello", upper), Ok(()));
    assert!(fsimpl.check_sha256(b"hello!", upper).is_err());
    assert_eq!(fsimpl.compare_digest(&[0x0f, 0xa0, 0xff], "0FA0FF"), Ok(()));
    assert_eq!(fsimpl.compare_digest(&[0x0f, 0xa0, 0xff], "0fa0ff00").unwrap_err().got, "0fa0ff");
}

#[test]
fn real_fs_tmp_path() {
    let fsimpl = RealFs;
    let p = fsimpl.tmp_path("abc.tar.gz");
    assert!(p.ends_with("/tmp/abc.tar.gz"));
    assert_eq!(p, "/tmp/abc.tar.gz");
    assert_eq!(fsimpl.tmp_path("/var/x.tar.gz"), "/var/x.tar.gz");
    assert_eq!(fsimpl.tmp_path(""), "/tmp/");
}

#[test]
fn real_sys_go_version_ok() {
    let v = RealSys::go_version_from_output("go version go1.2.3 linux/amd64\n").unwrap();
    assert_eq!(v, "go1.2.3");
}

#[test]
fn real_sys_go_version_bad_output() {
    let err = RealSys::go_version_from_output("not a go version\n").unwrap_err();
    assert!(err.message().contains("parse gagal"));
    assert_eq!(err, GoVersionError::ParseFailed("not a go version\n".into()));
}

#[test]
fn version_output_takes_the_first_match() {
    let out = "prefix go version go1.25.2.x go version go9.9.9";
    assert_eq!(RealSys::go_version_from_output(out).unwrap(), "go1.25.2.");
    assert!(RealSys::go_version_from_output("go version go").is_err());
}

#[test]
fn real_sys_is_root_smoke() {
    assert!(RealSys::is_root_from(Some("1"), 1000));
    assert!(RealSys::is_root_from(None, 0));
    assert!(!RealSys::is_root_from(Some("yes"), 1000));
    assert!(!RealSys::is_root_from(None, 1000));
}

#[test]
fn is_root_hits_geteuid() {
    assert!(RealSys::is_root_from(Some("0"), 0));
    assert!(!RealSys::is_root_from(Some("0"), 1));
}

#[test]
fn real_sys_go_version_nonzero_exit() {
    let err = RealSys::go_version_from_run(false, Some(1), "").unwrap_err();
    assert!(err.message().contains("exit code"));
    assert_eq!(err.message(), "`go version` exit code Some(1)");
    assert_eq!(
        RealSys::go_version_from_run(false, None, "go version go1.2.3").unwrap_err().message(),
        "`go version` exit code None"
    );
    assert_eq!(
        RealSys::go_version_from_run(false, Some(-127), "").unwrap_err().message(),
        format!("`go version` exit code {:?}", Some(-127))
    );
    assert_eq!(RealSys::go_version_from_run(true, Some(0), "go version go1.2.3 linux/amd64").unwrap(), "go1.2.3");
}

#[test]
fn short_published_digest_fails() {
    let fsimpl = RealFs;
    let err = fsimpl.check_sha256(b"hello", "ab").unwrap_err();
    assert_eq!(err.got.len(), 64);
}

#[test]
fn version_tag_is_go_then_digits_and_dots() {
    let v = RealSys::go_version_from_output("go version go1.21rc2 linux/amd64").unwrap();
    assert_eq!(v, "go1.21");
    assert!(RealSys::go_version_from_output("go version gox").is_err());
    assert_eq!(RealSys::go_version_from_output("go version go version go1.").unwrap(), "go1.");
}
