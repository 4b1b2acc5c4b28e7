use grub_cfg_generation::document::render_document;
use grub_cfg_generation::listing::{create_grub_cfg_string, entry_names, ListedEntry, RenderError};

fn named(name: &str) -> ListedEntry {
    ListedEntry::Name(name.to_string())
}

#[test]
fn listed_directory_gives_the_document_of_its_names() {
    let listing = Ok(vec![named("a"), named("b"), named("c")]);
    let made = create_grub_cfg_string("/p", "/d", &listing);
    let names = vec!["a".to_string(), "b".to_string(), "c".to_string()];
    assert_eq!(made, Ok(render_document("/p", "/d", &names)));
}

#[test]
fn listed_kernel_bin_gives_its_module_line() {
    let listing = Ok(vec![named("kernel.bin")]);
    let made = create_grub_cfg_string("", "modules", &listing).unwrap();
    assert!(made.contains(
        "\tmultiboot2 /boot/kernel.bin \n\tmodule2 /modules/kernel.bin               \t\tkernel.bin               \n\n\tboot\n}\n"
    ));
}

#[test]
fn empty_directory_gives_the_skeleton() {
    let listing = Ok(Vec::new());
    let made = create_grub_cfg_string("/p", "/d", &listing).unwrap();
    assert_eq!(made, render_document("/p", "/d", &Vec::new()));
    assert!(made.ends_with("\tmultiboot2 /boot/kernel.bin \n\n\tboot\n}\n"));
}

#[test]
fn directory_that_cannot_be_listed_is_an_io_error() {
    let listing = Err("No such file or directory (os error 2)".to_string());
    let made = create_grub_cfg_string("/p", "/missing", &listing);
    assert_eq!(
        made,
        Err(RenderError::Io("No such file or directory (os error 2)".to_string()))
    );
}

#[test]
fn unreadable_entry_is_an_io_error() {
    let listing = Ok(vec![named("a"), ListedEntry::Unreadable("Input/output error".to_string())]);
    let made = create_grub_cfg_string("/p", "/d", &listing);
    assert_eq!(made, Err(RenderError::Io("Input/output error".to_string())));
}

#[test]
fn entry_without_text_name_is_a_path_error() {
    let listing = Ok(vec![
        named("a"),
        ListedEntry::NotText("DirEntry(\"/d/\\xFF\")".to_string()),
        named("b"),
    ]);
    let made = create_grub_cfg_string("/p", "/d", &listing);
    assert_eq!(
        made,
        Err(RenderError::PathEncoding("DirEntry(\"/d/\\xFF\")".to_string()))
    );
}

#[test]
fn first_failing_entry_decides_the_error() {
    let listing = Ok(vec![
        named("a"),
        ListedEntry::NotText("first".to_string()),
        ListedEntry::Unreadable("second".to_string()),
    ]);
    assert_eq!(
        create_grub_cfg_string("/p", "/d", &listing),
        Err(RenderError::PathEncoding("first".to_string()))
    );
    let listing = Ok(vec![
        ListedEntry::Unreadable("second".to_string()),
        ListedEntry::NotText("first".to_string()),
    ]);
    assert_eq!(
        create_grub_cfg_string("/p", "/d", &listing),
        Err(RenderError::Io("second".to_string()))
    );
}

#[test]
fn entry_names_collects_in_order() {
    let entries = vec![named("z"), named("a"), named("m")];
    assert_eq!(
        entry_names(&entries),
        Ok(vec!["z".to_string(), "a".to_string(), "m".to_string()])
    );
    assert_eq!(entry_names(&Vec::new()), Ok(Vec::new()));
}

#[test]
fn entry_names_stops_at_first_failure() {
    let entries = vec![named("z"), ListedEntry::Unreadable("gone".to_string()), named("m")];
    assert_eq!(entry_names(&entries), Err(RenderError::Io("gone".to_string())));
}

#[test]
fn io_error_message_is_the_cause() {
    let error = RenderError::Io("Permission denied (os error 13)".to_string());
    assert_eq!(error.message(), "Permission denied (os error 13)");
}

#[test]
fn path_error_message_names_the_entry() {
    let error = RenderError::PathEncoding("DirEntry(\"/d/x\")".to_string());
    assert_eq!(error.message(), "Path error in path DirEntry(\"/d/x\")");
}
