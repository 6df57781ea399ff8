use rusty_backup::backup::{Backup, CreateFileError};
use rusty_backup::configuration::archive::Archive;
use rusty_backup::configuration::compression::{
    compress_payload, compress_round_trip, decompress_payload, Compression,
};
use rusty_backup::configuration::encryption::Encryption;

fn sample_payload() -> Vec<u8> {
    let mut data = Vec::new();
    for i in 0..20000u32 {
        data.push((i % 251) as u8);
        data.push(b'x');
    }
    data
}

#[test]
fn plan_for_compressed_archive() {
    let mut archive = Archive::new();
    archive.compression = Compression::TarBZ2;
    let plan = archive.plan_stages("daily-2024-03-07");
    assert_eq!(plan.files_to_store, vec!["daily-2024-03-07.tar.bz2"]);
    assert_eq!(plan.temporary_files, vec!["daily-2024-03-07.tar"]);
}

#[test]
fn plan_for_compressed_encrypted_archive() {
    let mut archive = Archive::new();
    archive.compression = Compression::TarBZ2;
    archive.encryption = Some(Encryption::new());
    let plan = archive.plan_stages("daily");
    assert_eq!(plan.files_to_store, vec!["daily.tar.bz2.enc"]);
    assert_eq!(plan.temporary_files, vec!["daily.tar", "daily.tar.bz2"]);
}

#[test]
fn plan_for_tar_archive() {
    let mut archive = Archive::new();
    archive.compression = Compression::Tar;
    let plan = archive.plan_stages("weekly-Mon");
    assert_eq!(plan.files_to_store, vec!["weekly-Mon.tar"]);
    assert!(plan.temporary_files.is_empty());
}

#[test]
fn plan_without_tar_stage_is_empty() {
    let archive = Archive::new();
    let plan = archive.plan_stages("daily");
    assert!(plan.files_to_store.is_empty());
    assert!(plan.temporary_files.is_empty());
}

#[test]
fn compression_is_a_round_trip() {
    let data = sample_payload();
    let packed = compress_payload(&data).unwrap();
    // The encoder really transformed the bytes.
    assert_ne!(packed, data);
    assert!(packed.len() < data.len());
    let unpacked = decompress_payload(&packed).unwrap();
    assert_eq!(unpacked, data);
    assert_eq!(compress_round_trip(&data).unwrap(), data);
}

#[test]
fn decompress_file_inflates_only_the_compressed_kind() {
    let data = sample_payload();
    let packed = compress_payload(&data).unwrap();
    assert_eq!(Compression::TarBZ2.decompress_file(&packed).unwrap(), data);
    assert_eq!(Compression::Tar.decompress_file(&data).unwrap(), data);
    assert_eq!(Compression::Uncompressed.decompress_file(&data).unwrap(), data);
}

#[test]
fn decompress_rejects_garbage() {
    let garbage = vec![1u8, 2, 3, 4, 5];
    assert!(decompress_payload(&garbage).is_err());
}

#[test]
fn bz2_stage_names_the_output() {
    let data = sample_payload();
    let (name, packed) = Backup::bz2_archive("daily.tar", &data).unwrap();
    assert_eq!(name, "daily.tar.bz2");
    assert_eq!(decompress_payload(&packed).unwrap(), data);
}

#[test]
fn compression_extensions() {
    assert_eq!(Compression::Uncompressed.to_extension_string(), "");
    assert_eq!(Compression::Tar.to_extension_string(), ".tar");
    assert_eq!(Compression::TarBZ2.to_extension_string(), ".tar.bz2");
}

#[test]
fn suffix_chain_strips_back_to_base() {
    let mut archive = Archive::new();
    archive.compression = Compression::TarBZ2;
    archive.encryption = Some(Encryption::new());
    assert_eq!(archive.strip_stage_extensions("daily.tar.bz2.enc"), "daily");
    archive.encryption = None;
    assert_eq!(archive.strip_stage_extensions("daily.tar.bz2"), "daily");
    // A name without the suffixes passes through unchanged.
    assert_eq!(archive.strip_stage_extensions("other.txt"), "other.txt");
}

#[test]
fn candidate_filename_joins_all_parts() {
    let mut archive = Archive::new();
    archive.compression = Compression::Tar;
    archive.destination.path = String::from("/backups");
    assert_eq!(archive.build_candidate_filename("weekly-Mon"), "/backups/weekly-Mon.tar");
    archive.encryption = Some(Encryption::new());
    assert_eq!(archive.build_candidate_filename("weekly-Mon"), "/backups/weekly-Mon.tar.enc");
}

#[test]
fn compressed_filename_appends_extension() {
    let mut archive = Archive::new();
    archive.compression = Compression::TarBZ2;
    assert_eq!(archive.compressed_filename("daily"), "daily.tar.bz2");
}

#[test]
fn archive_directory_names_keep_the_leaf() {
    assert_eq!(Backup::archive_directory_name("/data/app"), "app");
    assert_eq!(Backup::archive_directory_name("app"), "app");
    assert_eq!(Backup::archive_directory_name("/data/app/"), "");
}

#[test]
fn tar_create_errors_name_the_cause() {
    assert_eq!(
        Backup::tar_create_error_message("d.tar", &CreateFileError::AlreadyExists),
        "unable to create file: d.tar.tar => already exists"
    );
    assert_eq!(
        Backup::tar_create_error_message("d.tar", &CreateFileError::PermissionDenied),
        "unable to create file: d.tar.tar => permission denied"
    );
    assert_eq!(
        Backup::tar_create_error_message("d.tar", &CreateFileError::Other),
        "unable to create file: d.tar.tar"
    );
}

#[test]
fn run_error_messages() {
    assert_eq!(Backup::map_error("oh no"), "error: oh no");
    assert_eq!(
        Backup::create_path_error_message("/backups/"),
        "unable to create archive_path: '/backups/'"
    );
    assert_eq!(
        Backup::remove_temporary_error_message("daily.tar"),
        "unable to remove temporary file: 'daily.tar'"
    );
}
