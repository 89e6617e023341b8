use csm::csmrc::Config;
use csm::micromamba::download::{
    archive_binary_path, bunzip2, csm_cache_dir, download_micromamba, find_micromamba_in_archive,
    is_micromamba_entry, tar_entries, IoErrorKind,
    micromamba_executable_name, micromamba_url, CacheDirChoice, DownloadError, DownloadStep,
};
use csm::platform::{Platform, TargetArch, TargetOs};

fn platform(os: TargetOs, arch: TargetArch) -> Platform {
    Platform { os, arch }
}

#[test]
fn executable_names() {
    assert_eq!(
        micromamba_executable_name(platform(TargetOs::Linux, TargetArch::Aarch64)),
        Ok("micromamba")
    );
    assert_eq!(
        micromamba_executable_name(platform(TargetOs::Windows, TargetArch::X86_64)),
        Ok("micromamba.exe")
    );
    assert_eq!(
        micromamba_executable_name(platform(TargetOs::Other, TargetArch::X86_64)),
        Err(DownloadError::IncompatibleOS)
    );
}

#[test]
fn download_urls() {
    assert_eq!(
        micromamba_url(platform(TargetOs::Linux, TargetArch::X86_64)),
        Ok("https://micro.mamba.pm/api/micromamba/linux-64/latest".to_string())
    );
    assert_eq!(
        micromamba_url(platform(TargetOs::Linux, TargetArch::Aarch64)),
        Ok("https://micro.mamba.pm/api/micromamba/linux-aarch64/latest".to_string())
    );
    assert_eq!(
        micromamba_url(platform(TargetOs::Windows, TargetArch::X86_64)),
        Ok("https://micro.mamba.pm/api/micromamba/win-64/latest".to_string())
    );
    assert_eq!(
        micromamba_url(platform(TargetOs::Windows, TargetArch::Aarch64)),
        Err(DownloadError::IncompatibleArch)
    );
    assert_eq!(
        micromamba_url(platform(TargetOs::Linux, TargetArch::Other)),
        Err(DownloadError::IncompatibleArch)
    );
    assert_eq!(
        micromamba_url(platform(TargetOs::Other, TargetArch::X86_64)),
        Err(DownloadError::IncompatibleOS)
    );
}

#[test]
fn cache_dir_choice() {
    let mut config = Config::default();
    assert_eq!(
        csm_cache_dir(&config, Some("/home/u/.cache".to_string())),
        Ok(CacheDirChoice::UnderUserCache { base: "/home/u/.cache".to_string(), subdir: "csm" })
    );
    match csm_cache_dir(&config, None) {
        Err(e) => {
            assert_eq!(e.message(), "IO error: could not determine user cache directory");
            assert!(matches!(e, DownloadError::IO { kind: IoErrorKind::NotFound, .. }));
        }
        Ok(_) => panic!("expected an error"),
    }
    config.cache_dir = Some("/tmp/c".to_string());
    assert_eq!(
        csm_cache_dir(&config, None),
        Ok(CacheDirChoice::Configured("/tmp/c".to_string()))
    );
}

#[test]
fn download_decisions() {
    let linux = platform(TargetOs::Linux, TargetArch::X86_64);
    let mut config = Config::default();
    assert_eq!(download_micromamba(&config, linux, true), Ok(DownloadStep::UseCached));
    assert_eq!(
        download_micromamba(&config, linux, false),
        Ok(DownloadStep::Fetch(
            "https://micro.mamba.pm/api/micromamba/linux-64/latest".to_string()
        ))
    );
    config.download_micromamba = false;
    assert_eq!(
        download_micromamba(&config, linux, false),
        Err(DownloadError::DownloadDisabled)
    );
    assert_eq!(download_micromamba(&config, linux, true), Ok(DownloadStep::UseCached));
    assert_eq!(
        download_micromamba(&config, platform(TargetOs::Other, TargetArch::X86_64), true),
        Err(DownloadError::IncompatibleOS)
    );
    assert_eq!(
        download_micromamba(
            &Config::default(),
            platform(TargetOs::Linux, TargetArch::Other),
            false
        ),
        Err(DownloadError::IncompatibleArch)
    );
}

#[test]
fn archive_entry_matching() {
    let linux = archive_binary_path(platform(TargetOs::Linux, TargetArch::X86_64)).unwrap();
    assert_eq!(linux, vec!["bin", "micromamba"]);
    let entry = vec!["bin".to_string(), "micromamba".to_string()];
    assert!(is_micromamba_entry(&linux, &entry));
    let other = vec!["info".to_string(), "about.json".to_string()];
    assert!(!is_micromamba_entry(&linux, &other));
    let windows = archive_binary_path(platform(TargetOs::Windows, TargetArch::X86_64)).unwrap();
    assert_eq!(windows, vec!["Library", "bin", "micromamba.exe"]);
    assert!(!is_micromamba_entry(&windows, &entry));
    assert_eq!(
        archive_binary_path(platform(TargetOs::Other, TargetArch::Other)),
        Err(DownloadError::IncompatibleOS)
    );
}

#[test]
fn download_error_messages() {
    assert_eq!(
        DownloadError::IncompatibleOS.message(),
        "Incompatible OS for micromamba download"
    );
    assert_eq!(
        DownloadError::IncompatibleArch.message(),
        "Incompatible architecture/OS combination for micromamba download"
    );
    assert_eq!(
        DownloadError::BinNotInArchive.message(),
        "micromamba binary not found in downloaded archive"
    );
    assert_eq!(
        DownloadError::DownloadDisabled.message(),
        "Wanted to download micromamba, but doing so is disabled by csm configuration"
    );
    assert_eq!(
        DownloadError::IO { kind: IoErrorKind::Other, message: "x".to_string() }.message(),
        "IO error: x"
    );
    assert_eq!(
        DownloadError::Reqwest("y".to_string()).message(),
        "Failed to download micromamba: y"
    );
}

/// A `.tar.bz2` archive holding the given files.
fn tar_bz2(files: &[(&str, &[u8])]) -> Vec<u8> {
    tar_bz2_with(files, bzip2::Compression::default())
}

/// Like `tar_bz2`, at the given compression level.
fn tar_bz2_with(files: &[(&str, &[u8])], level: bzip2::Compression) -> Vec<u8> {
    let mut builder = tar::Builder::new(Vec::new());
    for (path, data) in files {
        let mut header = tar::Header::new_gnu();
        header.set_size(data.len() as u64);
        header.set_mode(0o755);
        header.set_cksum();
        builder.append_data(&mut header, path, *data).unwrap();
    }
    let tar = builder.into_inner().unwrap();
    let mut encoder = bzip2::write::BzEncoder::new(Vec::new(), level);
    std::io::Write::write_all(&mut encoder, &tar).unwrap();
    encoder.finish().unwrap()
}

#[test]
fn bunzip2_decompresses() {
    let archive = tar_bz2(&[("info/a.txt", b"hello")]);
    let decoded = bunzip2(&archive);
    assert!(decoded.error.is_none());
    let tar = decoded.bytes;
    assert_ne!(tar, archive);
    let listing = tar_entries(&tar);
    assert!(listing.error.is_none());
    assert_eq!(listing.entries.len(), 1);
    assert_eq!(
        listing.entries[0].0,
        Some(vec!["info".to_string(), "a.txt".to_string()])
    );
    assert_eq!(listing.entries[0].1, b"hello".to_vec());
    let garbage = bunzip2(b"not bzip2 at all");
    assert!(garbage.error.is_some());
    assert!(garbage.bytes.is_empty());
}

#[test]
fn finds_the_binary_in_the_archive() {
    let linux = platform(TargetOs::Linux, TargetArch::X86_64);
    let archive = tar_bz2(&[
        ("info/about.json", b"{}"),
        ("bin/micromamba", b"ELF-binary"),
        ("bin/micromamba", b"second copy"),
    ]);
    assert_eq!(find_micromamba_in_archive(linux, &archive), Ok(b"ELF-binary".to_vec()));

    let windows = platform(TargetOs::Windows, TargetArch::X86_64);
    assert_eq!(
        find_micromamba_in_archive(windows, &archive),
        Err(DownloadError::BinNotInArchive)
    );
    let archive = tar_bz2(&[("Library/bin/micromamba.exe", b"PE-binary")]);
    assert_eq!(find_micromamba_in_archive(windows, &archive), Ok(b"PE-binary".to_vec()));
    assert_eq!(
        find_micromamba_in_archive(platform(TargetOs::Other, TargetArch::X86_64), &archive),
        Err(DownloadError::IncompatibleOS)
    );
}

#[test]
fn archive_errors() {
    let linux = platform(TargetOs::Linux, TargetArch::X86_64);
    assert!(matches!(
        find_micromamba_in_archive(linux, b"garbage"),
        Err(DownloadError::IO { .. })
    ));
    let archive = tar_bz2(&[("bin/other", b"x")]);
    assert_eq!(
        find_micromamba_in_archive(linux, &archive),
        Err(DownloadError::BinNotInArchive)
    );
}

#[test]
fn damage_after_the_binary_does_not_matter() {
    let linux = platform(TargetOs::Linux, TargetArch::X86_64);
    // Data that does not compress, so that it spans several bzip2 blocks.
    let mut filler = Vec::new();
    let mut x: u32 = 12345;
    for _ in 0..400_000 {
        x = x.wrapping_mul(1103515245).wrapping_add(12345);
        filler.push((x >> 16) as u8);
    }
    let archive = tar_bz2_with(
        &[("bin/micromamba", b"ELF-binary"), ("share/filler", &filler)],
        bzip2::Compression::fast(),
    );
    let truncated = &archive[..archive.len() - 1000];
    assert!(bunzip2(truncated).error.is_some());
    assert_eq!(find_micromamba_in_archive(linux, truncated), Ok(b"ELF-binary".to_vec()));

    // Damage before the binary is an I/O error.
    let archive = tar_bz2_with(
        &[("share/filler", &filler), ("bin/micromamba", b"ELF-binary")],
        bzip2::Compression::fast(),
    );
    let truncated = &archive[..archive.len() - 1000];
    assert!(matches!(
        find_micromamba_in_archive(linux, truncated),
        Err(DownloadError::IO { .. })
    ));
}
