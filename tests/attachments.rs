use flowstate::bundle::{bundle_dir, free_name, numbered_file_name, plan_ingest};
use flowstate::hashing::FileHasher;
use flowstate::records::{Attachment, AttachmentChanges};

fn names(v: &[&str]) -> Vec<String> {
    v.iter().map(|s| s.to_string()).collect()
}

fn attachment(is_external: bool) -> Attachment {
    Attachment {
        id: 1,
        project_id: 7,
        component_id: None,
        problem_id: None,
        file_name: "notes.pdf".to_string(),
        file_path: "/data/projects/project_7/attachments/notes.pdf".to_string(),
        file_type: "pdf".to_string(),
        file_size: Some(1024),
        file_hash: Some("h1".to_string()),
        is_external,
        user_description: Some("old".to_string()),
        tags: None,
        ai_description: None,
        ai_summary: None,
        content_extracted: false,
        created_at: "2024-01-01 00:00:00".to_string(),
        updated_at: "2024-01-01 00:00:00".to_string(),
        indexed_at: None,
    }
}

#[test]
fn bundle_dir_layout() {
    assert_eq!(bundle_dir("/data", 7), "/data/projects/project_7/attachments");
    assert_eq!(bundle_dir("/d", -12), "/d/projects/project_-12/attachments");
    assert_eq!(bundle_dir("/d", 0), "/d/projects/project_0/attachments");
}

#[test]
fn ingest_two_files_named_alike() {
    let first = plan_ingest("/data", 7, "/home/u/docs/notes.pdf", Some(true), &vec![]);
    assert_eq!(first.file_name, "notes.pdf");
    assert_eq!(first.file_type, "pdf");
    assert!(!first.is_external);
    assert_eq!(first.stored_path, "/data/projects/project_7/attachments/notes.pdf");

    let second = plan_ingest("/data", 7, "/tmp/elsewhere/notes.pdf", None, &names(&["notes.pdf"]));
    assert_eq!(second.file_name, "notes.pdf");
    assert!(!second.is_external);
    assert_eq!(second.stored_path, "/data/projects/project_7/attachments/notes_1.pdf");
    assert_ne!(first.stored_path, second.stored_path);
}

#[test]
fn copied_files_land_inside_the_bundle() {
    for src in ["/a/b/report.txt", "relative/x.tar.gz", "/noext"] {
        let p = plan_ingest("/root/data", 3, src, Some(true), &names(&["report.txt", "x.tar.gz"]));
        assert!(!p.is_external);
        assert!(p.stored_path.starts_with("/root/data/projects/project_3/attachments/"));
        assert!(p.stored_path.len() > "/root/data/projects/project_3/attachments/".len());
    }
}

#[test]
fn external_files_stay_where_they_are() {
    let p = plan_ingest("/data", 7, "/home/u/big.iso", Some(false), &vec![]);
    assert!(p.is_external);
    assert_eq!(p.stored_path, "/home/u/big.iso");
    assert_eq!(p.file_name, "big.iso");
    assert_eq!(p.file_type, "iso");
}

#[test]
fn missing_name_and_extension_fall_back() {
    let p = plan_ingest("/data", 1, "/", Some(false), &vec![]);
    assert_eq!(p.file_name, "unknown");
    assert_eq!(p.file_type, "unknown");
    let q = plan_ingest("/data", 1, "/home/u/Makefile", Some(true), &names(&["Makefile"]));
    assert_eq!(q.file_type, "unknown");
    assert_eq!(q.stored_path, "/data/projects/project_1/attachments/Makefile_1");
}

#[test]
fn free_name_skips_every_taken_name() {
    let taken = names(&["a.txt", "a_1.txt", "a_2.txt"]);
    assert_eq!(free_name("a.txt", "a", "txt", &taken), "a_3.txt");
    assert_eq!(free_name("b.txt", "b", "txt", &taken), "b.txt");
    assert_eq!(free_name("a.txt", "a", "txt", &names(&["a.txt", "a_2.txt"])), "a_1.txt");
}

#[test]
fn free_name_when_every_numbered_name_below_the_count_is_taken() {
    let taken = names(&["f", "f_1", "f_2"]);
    assert_eq!(free_name("f", "f", "", &taken), "f_3");
}

#[test]
fn free_name_when_the_own_name_looks_numbered() {
    assert_eq!(free_name("a_1.b", "a", "b", &names(&["a_1.b"])), "a_2.b");
}

#[test]
fn stem_and_extension_follow_the_file_name() {
    let hidden = plan_ingest("/d", 1, "/x/.profile", Some(true), &names(&[".profile"]));
    assert_eq!(hidden.file_type, "unknown");
    assert_eq!(hidden.stored_path, "/d/projects/project_1/attachments/.profile_1");
    let dotted = plan_ingest("/d", 1, "/x/a.b.c", Some(true), &names(&["a.b.c"]));
    assert_eq!(dotted.file_type, "c");
    assert_eq!(dotted.stored_path, "/d/projects/project_1/attachments/a.b_1.c");
}

#[test]
fn numbered_names() {
    assert_eq!(numbered_file_name("notes", "pdf", 1), "notes_1.pdf");
    assert_eq!(numbered_file_name("notes", "", 12), "notes_12");
    assert_eq!(numbered_file_name("x.tar", "gz", 105), "x.tar_105.gz");
}

#[test]
fn hash_of_known_contents() {
    let h = FileHasher::new();
    assert_eq!(h.finish(), "e3b0c44298fc1c149afbf4c8996fb92427ae41e4649b934ca495991b7852b855");
    let mut h = FileHasher::new();
    h.feed(b"abc");
    assert_eq!(h.finish(), "ba7816bf8f01cfea414140de5dae2223b00361a396177a9cb410ff61f20015ad");
}

#[test]
fn same_content_same_hash_whatever_the_chunks() {
    let mut a = FileHasher::new();
    a.feed(b"hello ");
    a.feed(b"world");
    let mut b = FileHasher::new();
    b.feed(b"hel");
    b.feed(b"");
    b.feed(b"lo world");
    let ha = a.finish();
    assert_eq!(ha, b.finish());
    assert_eq!(ha.len(), 64);
    let mut c = FileHasher::new();
    c.feed(b"hello world!");
    assert_ne!(ha, c.finish());
}

#[test]
fn update_touches_only_given_fields() {
    let mut a = attachment(false);
    a.apply_changes(
        AttachmentChanges {
            user_description: None,
            tags: Some("[\"x\"]".to_string()),
            ai_description: None,
            ai_summary: None,
            content_extracted: Some(true),
        },
        "2024-02-02 10:00:00".to_string(),
    );
    assert_eq!(a.user_description.as_deref(), Some("old"));
    assert_eq!(a.tags.as_deref(), Some("[\"x\"]"));
    assert!(a.content_extracted);
    assert_eq!(a.indexed_at, None);
}

#[test]
fn setting_an_ai_field_stamps_indexed_at() {
    let mut a = attachment(false);
    a.apply_changes(
        AttachmentChanges {
            user_description: None,
            tags: None,
            ai_description: None,
            ai_summary: Some("sum".to_string()),
            content_extracted: None,
        },
        "2024-02-02 10:00:00".to_string(),
    );
    assert_eq!(a.ai_summary.as_deref(), Some("sum"));
    assert_eq!(a.indexed_at.as_deref(), Some("2024-02-02 10:00:00"));
    assert_eq!(a.user_description.as_deref(), Some("old"));
}

#[test]
fn removal_deletes_only_bundle_copies() {
    let copied = attachment(false);
    assert_eq!(copied.file_to_delete(true).as_deref(), Some("/data/projects/project_7/attachments/notes.pdf"));
    assert_eq!(copied.file_to_delete(false), None);
    assert_eq!(attachment(true).file_to_delete(true), None);
}
