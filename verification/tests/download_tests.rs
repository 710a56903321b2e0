use std::collections::HashMap;
use std::io::Read;

use s3_export::archive::build_archive;
use s3_export::common_error::CommonError;
use s3_export::download::{complete_download, object_key, validate_put_inputs};
use s3_export::listing::list_keys;
use s3_export::model::{FetchReport, ListedKey, RetrievalPolicy, RetrievedObject};

fn read_members(bytes: &[u8]) -> HashMap<String, Vec<u8>> {
    let mut archive = zip::ZipArchive::new(std::io::Cursor::new(bytes.to_vec())).unwrap();
    let mut members = HashMap::new();
    for i in 0..archive.len() {
        let mut member = archive.by_index(i).unwrap();
        let mut content = Vec::new();
        member.read_to_end(&mut content).unwrap();
        members.insert(member.name().to_string(), content);
    }
    members
}

#[test]
fn end_to_end_two_objects_become_a_two_member_archive() {
    // Bucket "my-bucket", path "/reports/", two qualifying objects.
    let entries = vec![
        ListedKey { key: String::from("reports/r1.csv"), size_bytes: 100 },
        ListedKey { key: String::from("reports/r2.csv"), size_bytes: 200 },
    ];
    let policy = RetrievalPolicy::default();
    let listed = list_keys(Some(entries), &String::from("/reports/"), &policy).unwrap();
    assert_eq!(listed, vec![String::from("r1.csv"), String::from("r2.csv")]);

    let r1_bytes = vec![1u8; 100];
    let r2_bytes = vec![2u8; 200];
    let reports = vec![
        FetchReport { key: listed[0].clone(), content: Some(r1_bytes.clone()) },
        FetchReport { key: listed[1].clone(), content: Some(r2_bytes.clone()) },
    ];
    let payload = complete_download(reports).unwrap();
    assert_eq!(payload.filename, "s3-export.zip");

    let members = read_members(&payload.content);
    assert_eq!(members.len(), 2);
    assert_eq!(members["r1.csv"], r1_bytes);
    assert_eq!(members["r2.csv"], r2_bytes);
}

#[test]
fn repeating_a_download_yields_the_same_member_set() {
    let reports_first = vec![
        FetchReport { key: String::from("r1.csv"), content: Some(vec![1, 2, 3]) },
        FetchReport { key: String::from("r2.csv"), content: Some(vec![4, 5]) },
    ];
    // The second run sees the same store, but the fan-out completes in the
    // opposite order.
    let reports_second = vec![
        FetchReport { key: String::from("r2.csv"), content: Some(vec![4, 5]) },
        FetchReport { key: String::from("r1.csv"), content: Some(vec![1, 2, 3]) },
    ];
    let first = complete_download(reports_first).unwrap();
    let second = complete_download(reports_second).unwrap();
    assert_eq!(read_members(&first.content), read_members(&second.content));
}

#[test]
fn a_failed_fetch_is_an_empty_member_not_a_failed_download() {
    let reports = vec![
        FetchReport { key: String::from("good.txt"), content: Some(vec![42]) },
        FetchReport { key: String::from("bad.txt"), content: None },
    ];
    let payload = complete_download(reports).unwrap();
    let members = read_members(&payload.content);
    assert_eq!(members.len(), 2);
    assert_eq!(members["good.txt"], vec![42]);
    assert_eq!(members["bad.txt"], Vec::<u8>::new());
}

#[test]
fn an_empty_download_is_an_empty_archive() {
    let payload = complete_download(Vec::new()).unwrap();
    let members = read_members(&payload.content);
    assert!(members.is_empty());
}

#[test]
fn a_duplicate_member_name_is_an_archive_write_error() {
    let objects = vec![
        RetrievedObject { key: String::from("same.txt"), content: vec![1] },
        RetrievedObject { key: String::from("same.txt"), content: vec![2] },
    ];
    assert_eq!(build_archive(&objects), Err(CommonError::ArchiveWriteError));
}

#[test]
fn archive_bytes_are_a_real_archive_not_the_input() {
    let objects = vec![RetrievedObject { key: String::from("a.bin"), content: vec![7, 8, 9] }];
    let bytes = build_archive(&objects).unwrap();
    assert_ne!(bytes, vec![7, 8, 9]);
    let members = read_members(&bytes);
    assert_eq!(members["a.bin"], vec![7, 8, 9]);
}

#[test]
fn empty_put_inputs_are_invalid() {
    let bucket = String::from("my-bucket");
    let path = String::from("reports");
    let key = String::from("r1.csv");
    let body = vec![1u8];
    assert_eq!(validate_put_inputs(&bucket, &path, &key, &body), Ok(()));
    assert_eq!(
        validate_put_inputs(&String::new(), &path, &key, &body),
        Err(CommonError::InvalidInput)
    );
    assert_eq!(
        validate_put_inputs(&bucket, &String::new(), &key, &body),
        Err(CommonError::InvalidInput)
    );
    assert_eq!(
        validate_put_inputs(&bucket, &path, &String::new(), &body),
        Err(CommonError::InvalidInput)
    );
    assert_eq!(
        validate_put_inputs(&bucket, &path, &key, &Vec::new()),
        Err(CommonError::InvalidInput)
    );
}

#[test]
fn object_key_joins_the_normalized_path_and_key() {
    assert_eq!(
        object_key(&String::from("/reports/"), &String::from("r1.csv")),
        "reports/r1.csv"
    );
}

#[test]
fn error_messages_name_each_failure() {
    assert_eq!(CommonError::InvalidInput.message(), "no valid input or parameter");
    assert_eq!(CommonError::QuotaExceeded.message(), "listing quota exceeded");
    assert_eq!(CommonError::StoreAccessError.message(), "store access error");
    assert_eq!(CommonError::ArchiveWriteError.message(), "archive write error");
}
