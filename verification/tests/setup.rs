//! The installer of the container program.

use hyperbox::cli::setup::{pick_signed_pkg_asset, GitHubAsset, GitHubRelease};

#[test]
fn picks_signed_pkg_from_release_assets() {
    let release = GitHubRelease {
        tag_name: "0.10.0".to_string(),
        assets: vec![
            GitHubAsset {
                name: "container-dSYM.zip".to_string(),
                browser_download_url: "https://example.invalid/dsym".to_string(),
                digest: None,
            },
            GitHubAsset {
                name: "container-0.10.0-installer-signed.pkg".to_string(),
                browser_download_url: "https://example.invalid/pkg".to_string(),
                digest: Some("sha256:abc".to_string()),
            },
        ],
    };

    let asset = pick_signed_pkg_asset(&release).expect("signed pkg asset");
    assert!(asset.name.ends_with("installer-signed.pkg"));
}
