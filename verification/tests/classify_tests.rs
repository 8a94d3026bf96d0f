use tauri_updater::classify::{classify, is_download_installable, is_download_valid, ArtifactKind};

#[test]
fn exe_is_direct_installable() {
    assert_eq!(classify("app.exe"), ArtifactKind::DirectInstallable);
    assert!(is_download_installable(String::from("app.exe")));
}

#[test]
fn deb_and_app_are_direct_installable() {
    assert_eq!(classify("app.deb"), ArtifactKind::DirectInstallable);
    assert_eq!(classify("bundle.app"), ArtifactKind::DirectInstallable);
}

#[test]
fn tar_gz_is_archive() {
    assert_eq!(classify("app.tar.gz"), ArtifactKind::Archive);
}

#[test]
fn zip_is_archive() {
    assert_eq!(classify("app.zip"), ArtifactKind::Archive);
}

#[test]
fn bin_is_invalid() {
    assert_eq!(classify("app.bin"), ArtifactKind::Invalid);
}

#[test]
fn no_extension_is_invalid() {
    assert_eq!(classify("app"), ArtifactKind::Invalid);
    assert!(!is_download_valid(String::from("app")));
}

#[test]
fn valid_download_accepts_gz_zip_and_installables() {
    assert!(is_download_valid(String::from("/tmp/work/app.tar.gz")));
    assert!(is_download_valid(String::from("/tmp/work/app.zip")));
    assert!(is_download_valid(String::from("/tmp/work/app.deb")));
    assert!(!is_download_valid(String::from("/tmp/work/app.rar")));
}

#[test]
fn classification_uses_the_file_name_not_the_directory() {
    // a directory part that looks like an archive does not make the file one
    assert_eq!(classify("dir.zip/app.bin"), ArtifactKind::Invalid);
}

#[test]
fn leading_dot_name_has_no_extension_but_matching_suffix_installs() {
    // `.app` has no extension, yet its suffix matches a package marker
    assert_eq!(classify(".app"), ArtifactKind::DirectInstallable);
    assert!(is_download_valid(String::from(".app")));
}
