use gem_installer::archive::{ExtractError, FileEntry};
use gem_installer::parser::Gem;
use gem_installer::unpack_gem::{find_inner_archive, unpack_gem};
use gem_installer::unpack_tar_gz::{place_entries, unpack_tar_gz};
use gem_installer::{install_gems, install_single_gem, GemOutcome, InstallError};

fn entry(path: &str, data: &[u8]) -> FileEntry {
    FileEntry { path: path.to_string(), data: data.to_vec() }
}

fn tar_bytes_of(entries: &[(&str, &[u8])]) -> Vec<u8> {
    let mut builder = tar::Builder::new(Vec::new());
    for (path, data) in entries {
        let mut header = tar::Header::new_gnu();
        header.set_size(data.len() as u64);
        header.set_mode(0o644);
        header.set_cksum();
        builder.append_data(&mut header, path, *data).unwrap();
    }
    builder.into_inner().unwrap()
}

fn gzip_of(data: &[u8]) -> Vec<u8> {
    let mut encoder = flate2::write::GzEncoder::new(Vec::new(), flate2::Compression::default());
    std::io::Write::write_all(&mut encoder, data).unwrap();
    encoder.finish().unwrap()
}

fn gem_archive_of(inner_entries: &[(&str, &[u8])]) -> Vec<u8> {
    let inner_tar = tar_bytes_of(inner_entries);
    let inner_gz = gzip_of(&inner_tar);
    tar_bytes_of(&[("metadata.gz", b"meta".as_slice()), ("data.tar.gz", inner_gz.as_slice())])
}

#[test]
fn inner_archive_is_found_by_exact_name() {
    let entries = vec![
        entry("metadata.gz", b"meta"),
        entry("data.tar.gz", b"payload"),
        entry("checksums.yaml.gz", b"sums"),
    ];
    assert_eq!(find_inner_archive(entries).unwrap(), b"payload");
}

#[test]
fn last_inner_archive_entry_wins() {
    let entries = vec![
        entry("data.tar.gz", b"first"),
        entry("data.tar.gz", b"second"),
    ];
    assert_eq!(find_inner_archive(entries).unwrap(), b"second");
}

#[test]
fn no_inner_archive_entry_is_an_error() {
    let entries = vec![entry("metadata.gz", b"meta"), entry("sub/data.tar.gz", b"wrong place")];
    assert!(matches!(find_inner_archive(entries), Err(ExtractError::InnerArchiveMissing)));
}

#[test]
fn place_entries_joins_destination_paths() {
    let out = place_entries(
        vec![entry("lib/a.rb", b"a"), entry("Gemfile", b"g")],
        "install/pkg-1.0.0",
    );
    assert_eq!(out.files.len(), 2);
    assert_eq!(out.files[0].path, "install/pkg-1.0.0/lib/a.rb");
    assert_eq!(out.files[1].path, "install/pkg-1.0.0/Gemfile");
    assert_eq!(out.gemfile_path.as_deref(), Some("install/pkg-1.0.0/Gemfile"));
}

#[test]
fn last_gemfile_entry_wins() {
    let out = place_entries(
        vec![entry("a/Gemfile", b"one"), entry("b/Gemfile", b"two")],
        "d",
    );
    assert_eq!(out.gemfile_path.as_deref(), Some("d/b/Gemfile"));
}

#[test]
fn unpack_gem_returns_inner_archive() {
    let inner_gz = gzip_of(&tar_bytes_of(&[("lib/a.rb", b"puts 1".as_slice())]));
    let outer = tar_bytes_of(&[("data.tar.gz", inner_gz.as_slice())]);
    let result = unpack_gem(&outer).unwrap();
    assert_eq!(result, inner_gz);
}

#[test]
fn unpack_gem_without_inner_archive_fails() {
    let outer = tar_bytes_of(&[("metadata.gz", b"meta".as_slice())]);
    let result = unpack_gem(&outer);
    assert!(matches!(result, Err(ExtractError::InnerArchiveMissing)));
}

#[test]
fn unpack_gem_on_garbage_fails() {
    let garbage = vec![0xffu8; 1024];
    let result = unpack_gem(&garbage);
    assert!(matches!(result, Err(ExtractError::TarDecode)));
}

#[test]
fn unpack_tar_gz_places_files_under_directory() {
    let tar = tar_bytes_of(&[
        ("lib/a.rb", b"puts 1".as_slice()),
        ("lib/sub/b.rb", b"puts 2".as_slice()),
    ]);
    let tar_gz = gzip_of(&tar);
    let out = unpack_tar_gz(&tar_gz, "target/gems/alpha-1.0.0").unwrap();
    assert_eq!(out.files.len(), 2);
    assert_eq!(out.files[0].path, "target/gems/alpha-1.0.0/lib/a.rb");
    assert_eq!(out.files[0].data, b"puts 1");
    assert_eq!(out.files[1].path, "target/gems/alpha-1.0.0/lib/sub/b.rb");
    assert_eq!(out.files[1].data, b"puts 2");
    assert!(out.gemfile_path.is_none());
}

#[test]
fn embedded_gemfile_is_discovered() {
    let tar = tar_bytes_of(&[
        ("lib/a.rb", b"puts 1".as_slice()),
        ("lib/Gemfile", b"gem \"nested\"".as_slice()),
    ]);
    let tar_gz = gzip_of(&tar);
    let out = unpack_tar_gz(&tar_gz, "target/gems/alpha-1.0.0").unwrap();
    assert_eq!(out.gemfile_path.as_deref(), Some("target/gems/alpha-1.0.0/lib/Gemfile"));
}

#[test]
fn gemfile_must_match_file_name_exactly() {
    let tar = tar_bytes_of(&[
        ("lib/Gemfile.lock", b"lock".as_slice()),
        ("lib/NotGemfile", b"no".as_slice()),
    ]);
    let tar_gz = gzip_of(&tar);
    let out = unpack_tar_gz(&tar_gz, "d").unwrap();
    assert!(out.gemfile_path.is_none());
}

#[test]
fn unpack_tar_gz_on_bad_gzip_fails() {
    let garbage = vec![0xffu8; 64];
    let result = unpack_tar_gz(&garbage, "d");
    assert!(matches!(result, Err(ExtractError::GzipDecode)));
}

#[test]
fn round_trip_preserves_every_file() {
    let contents: Vec<(&str, &[u8])> = vec![
        ("lib/a.rb", b"alpha body".as_slice()),
        ("lib/deep/nested/c.txt", b"\x00\x01\x02\xff".as_slice()),
        ("README", b"read me".as_slice()),
    ];
    let gem = Gem { name: "alpha".to_string(), version: "1.0.0".to_string() };
    let archive = gem_archive_of(&contents);
    let outcome = install_single_gem(&gem, Ok(archive), "target/gems");
    match outcome {
        GemOutcome::Installed { gem_name, gemfile_path, files } => {
            assert_eq!(gem_name, "alpha-1.0.0");
            assert!(gemfile_path.is_none());
            assert_eq!(files.len(), contents.len());
            for (file, (path, data)) in files.iter().zip(contents.iter()) {
                assert_eq!(file.path, format!("target/gems/alpha-1.0.0/{}", path));
                assert_eq!(&file.data[..], *data);
            }
        },
        GemOutcome::Failed { .. } => panic!("pipeline failed"),
    }
}

#[test]
fn pipeline_is_deterministic_on_same_inputs() {
    let contents: Vec<(&str, &[u8])> = vec![("lib/x.rb", b"x".as_slice())];
    let gem = Gem { name: "beta".to_string(), version: "2.0.0".to_string() };
    let archive = gem_archive_of(&contents);
    let first = install_single_gem(&gem, Ok(archive.clone()), "target/gems");
    let second = install_single_gem(&gem, Ok(archive), "target/gems");
    match (first, second) {
        (
            GemOutcome::Installed { gem_name: n1, gemfile_path: g1, files: f1 },
            GemOutcome::Installed { gem_name: n2, gemfile_path: g2, files: f2 },
        ) => {
            assert_eq!(n1, n2);
            assert_eq!(g1, g2);
            assert_eq!(f1.len(), f2.len());
            for (a, b) in f1.iter().zip(f2.iter()) {
                assert_eq!(a.path, b.path);
                assert_eq!(a.data, b.data);
            }
        },
        _ => panic!("pipeline failed"),
    }
}

#[test]
fn missing_inner_archive_contributes_nothing_to_installed() {
    let gem = Gem { name: "gamma".to_string(), version: "3.0.0".to_string() };
    let outer = tar_bytes_of(&[("metadata.gz", b"meta".as_slice())]);
    let outcome = install_single_gem(&gem, Ok(outer), "target/gems");
    match &outcome {
        GemOutcome::Failed { gem_name, error } => {
            assert_eq!(gem_name, "gamma-3.0.0");
            assert!(matches!(error, InstallError::Extract(ExtractError::InnerArchiveMissing)));
        },
        GemOutcome::Installed { .. } => panic!("pipeline unexpectedly succeeded"),
    }
    let report = install_gems(&vec![outcome]);
    assert!(report.install_gems.is_empty());
    assert_eq!(report.failed_gems.len(), 1);
    assert_eq!(report.failed_gems[0].gem_name, "gamma-3.0.0");
}
