use konabg::names::{
    decimal_text, image_file_name, join, lock_file_name, page_file_name, partition_dir_name,
    partition_of, Partition, Paths,
};

#[test]
fn decimal_text_writes_numbers() {
    assert_eq!(decimal_text(0), "0");
    assert_eq!(decimal_text(7), "7");
    assert_eq!(decimal_text(10), "10");
    assert_eq!(decimal_text(305921), "305921");
    assert_eq!(decimal_text(u32::MAX), "4294967295");
}

#[test]
fn file_names_follow_the_id() {
    assert_eq!(image_file_name(123456), "123456.jpg");
    assert_eq!(lock_file_name(123456), "123456.lock");
    assert_eq!(page_file_name(0), "page_0.json");
    assert_eq!(page_file_name(12), "page_12.json");
}

#[test]
fn partitions_have_their_own_directories() {
    assert_eq!(partition_of(false), Partition::Safe);
    assert_eq!(partition_of(true), Partition::Explicit);
    assert_eq!(partition_dir_name(Partition::Safe), "safe");
    assert_eq!(partition_dir_name(Partition::Explicit), "explicit");
    assert_eq!(join("/a", "b"), "/a/b");
}

#[test]
fn safe_layout_under_a_data_directory() {
    let p = Paths::under("/home/u/.local/share", false);
    assert_eq!(p.images_dir, "/home/u/.local/share/konabg/safe/images");
    assert_eq!(p.pages_dir, "/home/u/.local/share/konabg/safe/pages");
    assert_eq!(p.current_file, "/home/u/.local/share/konabg/safe/current.json");
    assert_eq!(p.config_file, "/home/u/.local/share/konabg/config.json");
    assert_eq!(p.image_path(42), "/home/u/.local/share/konabg/safe/images/42.jpg");
    assert_eq!(p.lock_path(42), "/home/u/.local/share/konabg/safe/images/42.lock");
    assert_eq!(p.page_path(1), "/home/u/.local/share/konabg/safe/pages/page_1.json");
}

#[test]
fn explicit_layout_shares_only_the_config() {
    let safe = Paths::under("/d", false);
    let explicit = Paths::under("/d", true);
    assert_eq!(explicit.images_dir, "/d/konabg/explicit/images");
    assert_eq!(explicit.pages_dir, "/d/konabg/explicit/pages");
    assert_eq!(explicit.current_file, "/d/konabg/explicit/current.json");
    assert_eq!(explicit.config_file, safe.config_file);
    assert_ne!(explicit.images_dir, safe.images_dir);
}

#[test]
fn create_uses_the_data_directory() {
    if let Some(p) = Paths::create(false) {
        assert!(p.images_dir.ends_with("/konabg/safe/images"));
        assert!(p.config_file.ends_with("/konabg/config.json"));
    }
}
