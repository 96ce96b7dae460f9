use libmtp_rs::device::MtpDevice;
use libmtp_rs::error::{Error, ErrorEntry, ErrorStack, MtpErrorKind, ERROR_CANCELLED};
use libmtp_rs::object::filetypes::Filetype;
use libmtp_rs::object::AsObjectId;
use libmtp_rs::storage::files::{
    encode_path, encode_path_wide, metadata_record, send_outcome, transfer_outcome, Endpoint, File,
    FileMetadata,
};
use libmtp_rs::storage::folders::{create_folder_outcome, FolderName, FolderRecord, FolderTree};
use libmtp_rs::storage::{
    AccessCapability, FilesystemType, FolderScope, Parent, StorageRecord, StorageType,
    FILES_AND_FOLDERS_ROOT,
};
use libmtp_rs::util::{CallbackReturn, HandlerGate, HandlerReturn};

fn record(id: u32, desc: Option<&str>) -> StorageRecord {
    StorageRecord {
        id,
        storage_type: 4,
        filesystem_type: 3,
        access_capability: 2,
        max_capacity: 32_000,
        free_space_in_bytes: 1_000,
        free_space_in_objects: 10,
        description: desc.map(|d| d.to_string()),
        volume_identifier: Some("VOL".to_string()),
    }
}

fn file(id: u32, parent: u32, name: &str, size: u64) -> File {
    File {
        item_id: id,
        parent_id: parent,
        storage_id: 0x10001,
        filesize: size,
        filename: name.to_string(),
        filetype: 14,
        modificationdate: 1_600_000_000,
    }
}

#[test]
fn parent_ids() {
    assert_eq!(Parent::Root.faf_id(), FILES_AND_FOLDERS_ROOT);
    assert_eq!(Parent::Root.to_id(), 0);
    assert_eq!(Parent::Folder(12).faf_id(), 12);
    assert_eq!(Parent::Folder(12).to_id(), 12);
    assert_eq!(Parent::from_faf_id(0xffff_ffff), Parent::Root);
}

#[test]
fn pool_keeps_native_order_and_ids() {
    let mut dev = MtpDevice::new();
    dev.update_storage(0, vec![record(0x30001, Some("SD")), record(0x10001, None), record(0x20001, Some("X"))])
        .unwrap();
    let pool = dev.storage_pool();
    assert_eq!(pool.len(), 3);
    let mut it = pool.iter();
    let mut seen = Vec::new();
    while let Some((id, s)) = it.next() {
        assert_eq!(s.id(), id);
        seen.push(id);
    }
    assert_eq!(seen, vec![0x30001, 0x10001, 0x20001]);
    for id in [0x30001, 0x10001, 0x20001] {
        assert_eq!(pool.by_id(id).unwrap().id(), id);
    }
    assert!(pool.by_id(0x40001).is_none());
    assert_eq!(pool.by_id(0x30001).unwrap().description(), Some("SD"));
    assert_eq!(pool.by_id(0x10001).unwrap().description(), None);
}

#[test]
fn pool_keeps_first_of_repeated_id() {
    let mut dev = MtpDevice::new();
    dev.update_storage(0, vec![record(5, Some("first")), record(6, None), record(5, Some("second"))]).unwrap();
    let pool = dev.storage_pool();
    assert_eq!(pool.len(), 2);
    assert_eq!(pool.by_id(5).unwrap().description(), Some("first"));
}

#[test]
fn empty_pool() {
    let dev = MtpDevice::new();
    let pool = dev.storage_pool();
    assert_eq!(pool.len(), 0);
    assert!(pool.iter().next().is_none());
}

#[test]
fn storage_attributes() {
    let mut dev = MtpDevice::new();
    dev.update_storage(0, vec![record(9, Some("Internal"))]).unwrap();
    let pool = dev.storage_pool();
    let s = pool.by_id(9).unwrap();
    assert_eq!(s.storage_type(), StorageType::RemovableRam);
    assert_eq!(s.filesystem_type(), FilesystemType::DesignCameraFilesystem);
    assert_eq!(s.access_capability(), Some(AccessCapability::ReadOnlyWithObjectDeletion));
    assert_eq!(s.maximum_capacity(), 32_000);
    assert_eq!(s.free_space_in_bytes(), 1_000);
    assert_eq!(s.free_space_in_objects(), 10);
    assert_eq!(s.volume_identifier(), Some("VOL"));
    assert_eq!(StorageType::from_u16(9), StorageType::Undefined);
    assert_eq!(FilesystemType::from_u16(1), FilesystemType::GenericFlat);
    assert_eq!(AccessCapability::from_u16(3), None);
}

#[test]
fn listing_and_folder_requests() {
    let mut dev = MtpDevice::new();
    dev.update_storage(0, vec![record(0x10001, None)]).unwrap();
    let pool = dev.storage_pool();
    let s = pool.by_id(0x10001).unwrap();
    let l = s.files_and_folders(Parent::Root);
    assert_eq!((l.storage_id, l.parent_id), (0x10001, 0xffff_ffff));
    let l = pool.files_and_folders(Parent::Folder(4));
    assert_eq!((l.storage_id, l.parent_id), (0, 4));
    assert_eq!(s.folder_list(), FolderScope::Storage(0x10001));
    assert_eq!(pool.folder_list(), FolderScope::Device);
    let c = pool.create_folder("Music", Parent::Root);
    assert_eq!((c.name, c.parent_id, c.storage_id), ("Music", 0xffff_ffff, 0));
    let c = s.create_folder("Music", Parent::Folder(3));
    assert_eq!((c.parent_id, c.storage_id), (3, 0x10001));
}

#[test]
fn transfer_requests() {
    let mut dev = MtpDevice::new();
    dev.update_storage(0, vec![record(0x10001, None)]).unwrap();
    let pool = dev.storage_pool();
    let s = pool.by_id(0x10001).unwrap();
    let f = file(77, 0xffff_ffff, "a.jpg", 5);
    let g = pool.get_file_to_path(&f, b"/tmp/a.jpg");
    assert_eq!(g.object_id, 77);
    assert!(!g.progress);
    match g.endpoint {
        Endpoint::Path(p) => assert_eq!(p, b"/tmp/a.jpg\0".to_vec()),
        other => panic!("unexpected {:?}", other),
    }
    let g = s.get_file_to_handler_with_callback(&42u32);
    assert_eq!(g.object_id, 42);
    assert!(g.progress);
    assert!(matches!(g.endpoint, Endpoint::Handler));
    let g = s.get_file_to_descriptor(&f, 3);
    assert!(matches!(g.endpoint, Endpoint::Descriptor(3)));
    let meta = FileMetadata { file_size: 5, file_name: "b.mp3", file_type: Filetype::Mp3, modification_date: 1_700_000_000 };
    let r = s.send_file_from_handler(Parent::Folder(8), &meta);
    assert_eq!((r.record.storage_id, r.record.parent_id, r.record.filetype), (0x10001, 8, 2));
    let r = pool.send_file_from_path_with_callback(b"b.mp3", Parent::Root, &meta);
    assert_eq!((r.record.storage_id, r.record.parent_id), (0, 0));
    assert_eq!(r.record.filename, "b.mp3");
    assert_eq!(r.record.modificationdate, 1_700_000_000);
    assert!(r.progress);
}

#[test]
fn path_encodings() {
    assert_eq!(encode_path(b""), vec![0]);
    assert_eq!(encode_path(b"ab"), vec![b'a', b'b', 0]);
    assert_eq!(encode_path_wide(&[0x0041, 0x20ac]), vec![0x41, 0x00, 0xac, 0x20, 0, 0]);
}

#[test]
fn handler_cancel_on_second_chunk_stops_delivery() {
    let chunks: Vec<Vec<u8>> = vec![vec![1; 8], vec![2; 8], vec![3; 8], vec![4; 8]];
    let mut answers = vec![HandlerReturn::Proceed(8), HandlerReturn::Cancel].into_iter();
    let mut delivered = 0;
    let mut gate = HandlerGate::new();
    let mut codes = Vec::new();
    for c in &chunks {
        if gate.is_open() {
            delivered += 1;
            let answer = answers.next().unwrap();
            assert!(!c.is_empty());
            codes.push(gate.record(answer).0);
        } else {
            codes.push(gate.refusal());
        }
    }
    assert_eq!(delivered, 2);
    assert_eq!(codes, vec![0, 2, 2, 2]);
    // The native layer reports the cancel on its error stack and fails the call.
    let mut errors = ErrorStack::new();
    errors.push(ErrorEntry { errornumber: ERROR_CANCELLED, text: b"Cancelled transfer".to_vec() });
    match transfer_outcome(&mut errors, -1, Some(gate.last())) {
        Err(Error::MtpError { kind, .. }) => assert_eq!(kind, MtpErrorKind::Cancelled),
        other => panic!("unexpected {:?}", other),
    }
    assert!(errors.is_empty());
}

#[test]
fn handler_error_fails_even_when_native_succeeds() {
    let mut gate = HandlerGate::new();
    assert_eq!(gate.record(HandlerReturn::Error), (1, 0));
    let mut errors = ErrorStack::new();
    assert!(matches!(transfer_outcome(&mut errors, 0, Some(gate.last())), Err(Error::Unknown)));
}

#[test]
fn handler_proceed_count_is_handed_on() {
    let mut gate = HandlerGate::new();
    assert_eq!(gate.record(HandlerReturn::Proceed(4)), (0, 4));
    assert_eq!(gate.record(HandlerReturn::Proceed(17)), (0, 17));
    assert_eq!(gate.last(), HandlerReturn::Proceed(17));
    assert!(gate.is_open());
}

#[test]
fn transfer_success_drains_stale_errors() {
    let mut errors = ErrorStack::new();
    errors.push(ErrorEntry { errornumber: 1, text: b"stale".to_vec() });
    assert!(transfer_outcome(&mut errors, 0, None).is_ok());
    assert!(errors.is_empty());
}

#[test]
fn send_of_empty_file_gives_entry_of_size_zero() {
    let meta = FileMetadata { file_size: 0, file_name: "empty.txt", file_type: Filetype::Text, modification_date: 0 };
    let rec = metadata_record(&meta, Parent::Root, 0x10001);
    assert_eq!(rec.size(), 0);
    let mut sent = rec.clone();
    sent.item_id = 321;
    let mut errors = ErrorStack::new();
    let f = send_outcome(&mut errors, 0, None, sent).unwrap();
    assert_eq!(f.id(), 321);
    assert_eq!(f.size(), 0);
    assert_eq!(f.name(), "empty.txt");
    assert_eq!(f.ftype(), Filetype::Text);
}

#[test]
fn failed_send_reports_error() {
    let meta = FileMetadata { file_size: 3, file_name: "x", file_type: Filetype::Text, modification_date: 0 };
    let rec = metadata_record(&meta, Parent::Folder(2), 0);
    let mut errors = ErrorStack::new();
    errors.push(ErrorEntry { errornumber: 6, text: b"full".to_vec() });
    match send_outcome(&mut errors, -1, None, rec) {
        Err(Error::MtpError { kind, .. }) => assert_eq!(kind, MtpErrorKind::StorageFull),
        other => panic!("unexpected {:?}", other),
    }
}

#[test]
fn file_accessors_and_rename() {
    let mut f = file(5, 0xffff_ffff, "old.jpg", 10);
    assert_eq!(f.parent_id(), Parent::Root);
    assert_eq!(f.as_id(), 5);
    assert_eq!(f.storage_id(), 0x10001);
    assert_eq!(f.modification_date(), 1_600_000_000);
    assert_eq!(file(6, 9, "x", 0).parent_id(), Parent::Folder(9));
    let mut errors = ErrorStack::new();
    f.rename("new.jpg", &mut errors, 0).unwrap();
    assert_eq!(f.name(), "new.jpg");
    assert!(f.rename("bad", &mut errors, -1).is_err());
    assert_eq!(f.name(), "new.jpg");
    let mut g = file(6, 0, "x", 0);
    g.filetype = 999;
    assert_eq!(g.ftype(), Filetype::Unknown);
}

fn folder(id: u32, parent: u32, name: &str, child: Option<usize>, sibling: Option<usize>) -> FolderRecord {
    FolderRecord { folder_id: id, parent_id: parent, storage_id: 1, name: name.to_string(), child, sibling }
}

fn sample_tree() -> FolderTree {
    // Music (10) { Rock (11), Jazz (12) }, Pictures (20) { Camera (21) }
    FolderTree::from_native(vec![
        folder(10, 0, "Music", Some(1), Some(3)),
        folder(11, 10, "Rock", None, Some(2)),
        folder(12, 10, "Jazz", None, None),
        folder(20, 0, "Pictures", Some(4), None),
        folder(21, 20, "Camera", None, None),
    ])
    .unwrap()
}

#[test]
fn folder_tree_navigation() {
    let tree = sample_tree();
    let root = tree.root();
    assert_eq!((root.id(), root.name()), (10, "Music"));
    let rock = root.child().unwrap();
    assert_eq!((rock.id(), rock.parent_id()), (11, 10));
    assert_eq!(rock.parent_id(), root.id());
    assert_eq!(root.sibling().unwrap().parent_id(), root.parent_id());
    assert_eq!(rock.sibling().unwrap().name(), "Jazz");
    assert!(rock.child().is_none());
    let pictures = root.sibling().unwrap();
    assert_eq!(pictures.child().unwrap().name(), "Camera");
    assert!(pictures.sibling().is_none());
}

#[test]
fn folder_find() {
    let tree = sample_tree();
    let root = tree.root();
    assert_eq!(root.find(21).unwrap().name(), "Camera");
    assert_eq!(root.find(12).unwrap().name(), "Jazz");
    assert_eq!(root.find(10).unwrap().name(), "Music");
    assert!(root.find(99).is_none());
    let pictures = root.sibling().unwrap();
    assert!(pictures.find(11).is_none());
}

#[test]
fn views_do_not_affect_other_trees() {
    let first = sample_tree();
    let second = sample_tree();
    {
        let view = first.root().child().unwrap();
        assert_eq!(view.name(), "Rock");
    }
    drop(first);
    assert_eq!(second.root().find(21).unwrap().name(), "Camera");
}

#[test]
fn folder_tree_rejects_bad_listings() {
    assert!(FolderTree::from_native(vec![]).is_none());
    assert!(FolderTree::from_native(vec![folder(1, 0, "a", Some(0), None)]).is_none());
    assert!(FolderTree::from_native(vec![folder(1, 0, "a", None, Some(5))]).is_none());
    // A child whose parent id is not the folder that links to it.
    assert!(FolderTree::from_native(vec![folder(1, 0, "a", Some(1), None), folder(2, 7, "b", None, None)]).is_none());
    // Siblings with different parents.
    assert!(FolderTree::from_native(vec![folder(1, 0, "a", None, Some(1)), folder(2, 1, "b", None, None)]).is_none());
}

#[test]
fn folder_rename() {
    let mut tree = sample_tree();
    let mut errors = ErrorStack::new();
    tree.rename(2, "Blues", &mut errors, 0).unwrap();
    assert_eq!(tree.root().find(12).unwrap().name(), "Blues");
    assert!(tree.rename(2, "Soul", &mut errors, 1).is_err());
    assert_eq!(tree.root().find(12).unwrap().name(), "Blues");
}

#[test]
fn create_folder_names() {
    let mut errors = ErrorStack::new();
    let (id, name) = create_folder_outcome(&mut errors, "Photos", b"Photos".to_vec(), 55).unwrap();
    assert_eq!(id, 55);
    assert!(matches!(name, FolderName::Requested("Photos")));
    let (id, name) = create_folder_outcome(&mut errors, "a:b", b"a_b".to_vec(), 56).unwrap();
    assert_eq!(id, 56);
    assert_eq!(name.as_str(), "a_b");
    assert!(matches!(name, FolderName::Assigned(_)));
    errors.push(ErrorEntry { errornumber: 1, text: b"denied".to_vec() });
    match create_folder_outcome(&mut errors, "x", b"x".to_vec(), 0) {
        Err(Error::MtpError { kind, text }) => {
            assert_eq!(kind, MtpErrorKind::General);
            assert_eq!(text, "denied");
        }
        other => panic!("unexpected {:?}", other),
    }
}

#[test]
fn create_folder_assigned_name_must_be_utf8() {
    let mut errors = ErrorStack::new();
    errors.push(ErrorEntry { errornumber: 1, text: b"stale".to_vec() });
    match create_folder_outcome(&mut errors, "caf\u{e9}", vec![b'c', b'a', b'f', 0xe9], 57) {
        Err(Error::Utf8Error { bytes }) => assert_eq!(bytes, vec![b'c', b'a', b'f', 0xe9]),
        other => panic!("unexpected {:?}", other),
    }
    assert!(errors.is_empty());
    let (_, name) = create_folder_outcome(&mut errors, "caf\u{e9}", "caf\u{e9}".as_bytes().to_vec(), 58).unwrap();
    assert!(matches!(name, FolderName::Requested(_)));
}

#[test]
fn created_folder_shows_in_listing_under_reported_name() {
    let mut errors = ErrorStack::new();
    let (id, name) = create_folder_outcome(&mut errors, "a:b", b"a_b".to_vec(), 56).unwrap();
    // A listing of the parent after the creation, as the device returns it.
    let listing = vec![file(40, 7, "song.mp3", 3), file(56, 7, "a_b", 0)];
    assert!(listing.iter().any(|f| f.id() == id && f.name() == name.as_str()));
}

#[test]
fn callback_codes() {
    assert_eq!(CallbackReturn::Continue.native_code(), 0);
    assert_eq!(CallbackReturn::Cancel.native_code(), 1);
    assert_eq!(HandlerReturn::Proceed(3).native_code(), 0);
    assert_eq!(HandlerReturn::Error.native_code(), 1);
    assert_eq!(HandlerReturn::Cancel.native_code(), 2);
    assert!(HandlerReturn::Cancel.is_cancel());
    assert!(!HandlerReturn::Cancel.is_error());
    assert!(HandlerReturn::Error.is_error());
}

#[test]
fn filetype_codes_round_trip() {
    for code in 0..45u32 {
        let t = Filetype::from_u32(code).unwrap();
        assert_eq!(t.to_u32(), code);
    }
    assert_eq!(Filetype::from_u32(45), None);
    assert_eq!(Filetype::Playlist.to_u32(), 43);
}
