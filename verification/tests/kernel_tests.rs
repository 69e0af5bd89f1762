use mihomo_tui::error::AppError;
use mihomo_tui::runtime::kernel::{ArchiveKind, GithubAsset, GithubRelease, KernelManager, Platform, archive_kind};
use mihomo_tui::runtime::{
    asset_score, binary_name, choose_asset, release_arch, release_os, release_url, select_core_entry,
    version_from_output, versioned_core_names, CoreStatus, MihomoCore, MihomoMode, ReleaseAsset,
};

#[test]
fn platform_current() {
    for (os, arch) in [("linux", "x86_64"), ("macos", "aarch64"), ("windows", "x86"), ("freebsd", "riscv64")] {
        let p = Platform::current(os, arch);
        assert!(!p.os.is_empty());
        assert!(!p.arch.is_empty());
    }
}

#[test]
fn binary_name_format() {
    let linux_amd64 = Platform { os: "linux".into(), arch: "amd64".into() };
    assert_eq!(linux_amd64.binary_name(), "mihomo-linux-amd64");

    let win = Platform { os: "windows".into(), arch: "amd64".into() };
    assert_eq!(win.binary_name(), "mihomo-windows-amd64.exe");
}

#[test]
fn asset_pattern_format() {
    let p = Platform { os: "linux".into(), arch: "amd64".into() };
    assert!(p.asset_pattern().contains(".gz"));

    let pw = Platform { os: "windows".into(), arch: "amd64".into() };
    assert!(pw.asset_pattern().contains(".zip"));
}

#[test]
fn mode_cycles_through_mihomo_modes() {
    assert_eq!(MihomoMode::Rule.next(), MihomoMode::Global);
    assert_eq!(MihomoMode::Global.next(), MihomoMode::Direct);
    assert_eq!(MihomoMode::Direct.next(), MihomoMode::Rule);
}

#[test]
fn platform_names() {
    let p = Platform::current("macos", "aarch64");
    assert_eq!((p.os.as_str(), p.arch.as_str()), ("darwin", "arm64"));
    let p = Platform::current("freebsd", "arm");
    assert_eq!((p.os.as_str(), p.arch.as_str()), ("freebsd", "armv7"));
    assert_eq!(p.asset_pattern(), "mihomo-freebsd-armv7*.gz");
}

fn asset(name: &str) -> GithubAsset {
    GithubAsset { name: name.to_owned(), size: 1, browser_download_url: format!("https://d/{name}") }
}

#[test]
fn matching_asset_is_first_archive_with_prefix() {
    let m = KernelManager::new("/k", Platform::current("linux", "x86_64"));
    let release = GithubRelease {
        tag_name: "v1.19.0".to_owned(),
        name: None,
        prerelease: false,
        published_at: String::new(),
        assets: vec![
            asset("mihomo-darwin-amd64-v1.19.0.gz"),
            asset("mihomo-linux-amd64-v1.19.0.deb"),
            asset("mihomo-linux-amd64-compatible-v1.19.0.gz"),
            asset("mihomo-linux-amd64-v1.19.0.gz"),
        ],
    };
    let a = m.find_matching_asset(&release).unwrap();
    assert_eq!(a.name, "mihomo-linux-amd64-compatible-v1.19.0.gz");
    let none = GithubRelease { assets: vec![asset("x.gz")], ..release };
    assert!(m.find_matching_asset(&none).is_none());
    assert_eq!(
        m.download_asset(&none).unwrap_err(),
        AppError::Other("no matching asset found for current platform".to_owned())
    );
}

#[test]
fn archive_kinds() {
    assert_eq!(archive_kind("a.gz").unwrap(), ArchiveKind::Gz);
    assert_eq!(archive_kind("a.zip").unwrap(), ArchiveKind::Zip);
    assert_eq!(archive_kind("a.tar").unwrap_err(), AppError::Other("unknown archive format: a.tar".to_owned()));
}

#[test]
fn zip_entry_selection() {
    let m = KernelManager::new("/k", Platform::current("windows", "x86_64"));
    let names = vec![None, Some("README.md".to_owned()), Some("bin/mihomo-windows-amd64.exe".to_owned())];
    assert_eq!(m.select_zip_entry(&names), 2);
    assert_eq!(m.select_zip_entry(&[Some("a.txt".to_owned())]), 0);
}

#[test]
fn installed_and_active_versions() {
    let m = KernelManager::new("/k", Platform::current("linux", "x86_64"));
    let v = m.list_installed_versions(vec!["v1.2".to_owned(), "v1.10".to_owned(), "v1.1".to_owned()]);
    assert_eq!(v, vec!["v1.1", "v1.10", "v1.2"]);
    assert_eq!(m.get_active_version(Some("  v1.2\n".to_owned())), Some("v1.2".to_owned()));
    assert_eq!(m.get_active_version(Some(" \n".to_owned())), None);
    assert_eq!(m.get_active_version(None), None);
    assert_eq!(
        m.get_binary_path("v9", "/k/v9/x".to_owned(), false).unwrap_err(),
        AppError::Other("kernel binary not found for version v9 at /k/v9/x".to_owned())
    );
}

#[test]
fn core_assets_and_scores() {
    assert_eq!(asset_score("mihomo-linux-amd64-compatible-go120-v1.19.gz"), 31);
    assert_eq!(asset_score("mihomo-linux-amd64-v1-go124.gz"), 23);
    assert_eq!(asset_score("mihomo-linux-amd64.gz"), 0);
    let assets = vec![
        ReleaseAsset { name: "mihomo-linux-amd64-v1.19.gz".into(), browser_download_url: "a".into() },
        ReleaseAsset { name: "mihomo-android-linux-amd64-compatible.gz".into(), browser_download_url: "b".into() },
        ReleaseAsset { name: "mihomo-linux-amd64-compatible-v1.19.gz".into(), browser_download_url: "c".into() },
        ReleaseAsset { name: "mihomo-linux-amd64-compatible-v1.18.gz".into(), browser_download_url: "d".into() },
        ReleaseAsset { name: "mihomo-linux-arm64-compatible.gz".into(), browser_download_url: "e".into() },
    ];
    let best = choose_asset(&assets, release_os("linux"), &release_arch("x86_64"), ".gz").unwrap();
    assert_eq!(best.browser_download_url, "d");
    assert!(choose_asset(&assets, "windows", "amd64", ".zip").is_none());
    assert_eq!(binary_name(true), "mihomo.exe");
    assert_eq!(binary_name(false), "mihomo");
    assert_eq!(release_url("latest"), "https://api.github.com/repos/MetaCubeX/mihomo/releases/latest");
    assert_eq!(release_url("1.19.0"), "https://api.github.com/repos/MetaCubeX/mihomo/releases/tags/v1.19.0");
    assert_eq!(release_url("v1.19.0"), "https://api.github.com/repos/MetaCubeX/mihomo/releases/tags/v1.19.0");
}

#[test]
fn core_metadata() {
    assert_eq!(version_from_output(true, "  Mihomo Meta v1.19.0\r\nbuilt\n", ""), Some("Mihomo Meta v1.19.0".to_owned()));
    assert_eq!(version_from_output(true, " \n", "err line"), Some("err line".to_owned()));
    assert_eq!(version_from_output(false, "x", "y"), None);
    assert_eq!(version_from_output(true, "", ""), None);
    let c = MihomoCore::new(Some("/m".to_owned()), true, None);
    assert_eq!(c.version, "unknown");
    assert_eq!(c.status, CoreStatus::Stopped);
    let c = MihomoCore::new(None, true, Some("v1".to_owned()));
    assert_eq!(c.status, CoreStatus::Missing);
    assert_eq!(c.status.display_name(), "Missing");
    assert_eq!(c.version, "unknown");
    let c = MihomoCore::new(Some("/m".to_owned()), false, Some("v1".to_owned()));
    assert_eq!((c.version.as_str(), c.status), ("unknown", CoreStatus::Missing));
    let c = MihomoCore::new(Some("/m".to_owned()), true, Some(String::new()));
    assert_eq!(c.version, "unknown");
    let c = MihomoCore::new(Some("/m".to_owned()), true, Some("v1.19.0".to_owned()));
    assert_eq!(c.version, "v1.19.0");
    assert_eq!(MihomoMode::parse("GLOBAL").unwrap(), MihomoMode::Global);
    assert_eq!(MihomoMode::parse("Fast").unwrap_err(), "unsupported mihomo mode fast");
    assert_eq!(MihomoMode::Direct.api_value(), "direct");
    assert_eq!(MihomoMode::Rule.display_name(), "Rule");
}

#[test]
fn zip_core_entries_and_versioned_names() {
    let names = vec!["LICENSE".to_owned(), "Mihomo.EXE".to_owned()];
    assert_eq!(select_core_entry(&names), Some(1));
    assert_eq!(select_core_entry(&["a".to_owned()]), None);
    let v = versioned_core_names(
        vec!["v1.18-mihomo".into(), "notes.txt".into(), "v1.19-mihomo".into()],
        "mihomo",
    );
    assert_eq!(v, vec!["v1.19-mihomo", "v1.18-mihomo"]);
}

#[test]
fn matching_asset_has_the_platform_extension() {
    let m = KernelManager::new("/k", Platform::current("linux", "x86_64"));
    let release = GithubRelease {
        tag_name: "v1.19.0".to_owned(),
        name: None,
        prerelease: false,
        published_at: String::new(),
        assets: vec![asset("mihomo-linux-amd64-v1.19.0.zip"), asset("mihomo-linux-amd64-v1.19.0.gz")],
    };
    assert_eq!(m.find_matching_asset(&release).unwrap().name, "mihomo-linux-amd64-v1.19.0.gz");
    let w = KernelManager::new("/k", Platform::current("windows", "x86_64"));
    let release = GithubRelease {
        assets: vec![asset("mihomo-windows-amd64-v1.19.0.gz"), asset("mihomo-windows-amd64-v1.19.0.zip")],
        ..release
    };
    assert_eq!(w.find_matching_asset(&release).unwrap().name, "mihomo-windows-amd64-v1.19.0.zip");
}
