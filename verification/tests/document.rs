use grub_cfg_generation::document::{module_entry, pad_name, render_document, NAME_WIDTH};

fn header(program_path: &str, input_directory: &str) -> String {
    format!(
        "### This file has been autogenerated, do not manually modify it!\n\
         ### Generated by program: \"{}\"\n\
         ### Input directory: \"{}\"\n\
         \n\
         set timeout=0\n\
         set default=0\n\
         \n\
         menuentry \"Theseus OS\" {{\n\
         \tmultiboot2 /boot/kernel.bin \n",
        program_path, input_directory
    )
}

fn names(list: &[&str]) -> Vec<String> {
    let mut out = Vec::new();
    for name in list {
        out.push(name.to_string());
    }
    out
}

#[test]
fn name_width_is_twenty_five() {
    assert_eq!(NAME_WIDTH, 25);
}

#[test]
fn pad_name_fills_short_name_with_blanks() {
    assert_eq!(pad_name("kernel.bin"), "kernel.bin               ");
    assert_eq!(pad_name("kernel.bin").len(), 25);
}

#[test]
fn pad_name_of_empty_name_is_all_blanks() {
    assert_eq!(pad_name(""), "                         ");
}

#[test]
fn pad_name_leaves_name_of_full_width_alone() {
    let name = "abcdefghijklmnopqrstuvwxy";
    assert_eq!(name.len(), 25);
    assert_eq!(pad_name(name), name);
}

#[test]
fn pad_name_one_short_of_full_width_gets_one_blank() {
    assert_eq!(pad_name("abcdefghijklmnopqrstuvwx"), "abcdefghijklmnopqrstuvwx ");
}

#[test]
fn pad_name_leaves_longer_name_alone() {
    let name = "a_module_with_quite_a_long_name.o";
    assert_eq!(pad_name(name), name);
}

#[test]
fn pad_name_counts_characters_not_bytes() {
    let padded = pad_name("né");
    assert_eq!(padded.chars().count(), 25);
    assert_eq!(padded, format!("{:25}", "né"));
    assert!(padded.starts_with("né"));
}

#[test]
fn pad_name_agrees_with_std_formatting() {
    for name in ["", "a", "kernel.bin", "abcdefghijklmnopqrstuvwxy", "abcdefghijklmnopqrstuvwxyz0123"] {
        assert_eq!(pad_name(name), format!("{:25}", name));
    }
}

#[test]
fn module_line_of_kernel_bin() {
    assert_eq!(
        module_entry("kernel.bin"),
        "\tmodule2 /modules/kernel.bin               \t\tkernel.bin               \n"
    );
}

#[test]
fn module_line_of_long_name_has_no_padding() {
    let name = "a_module_with_quite_a_long_name.o";
    assert_eq!(
        module_entry(name),
        format!("\tmodule2 /modules/{}\t\t{}\n", name, name)
    );
}

#[test]
fn empty_listing_gives_header_and_skeleton_only() {
    let text = render_document("/opt/theseus", "/build/modules", &Vec::new());
    let expected = "### This file has been autogenerated, do not manually modify it!\n\
### Generated by program: \"/opt/theseus\"\n\
### Input directory: \"/build/modules\"\n\
\n\
set timeout=0\n\
set default=0\n\
\n\
menuentry \"Theseus OS\" {\n\
\tmultiboot2 /boot/kernel.bin \n\
\n\
\tboot\n\
}\n";
    assert_eq!(text, expected);
    assert!(!text.contains("module2"));
    assert!(text.contains("\tmultiboot2 /boot/kernel.bin \n\n\tboot\n}\n"));
}

#[test]
fn one_entry_named_kernel_bin() {
    let text = render_document("", "in", &names(&["kernel.bin"]));
    let line = "\tmodule2 /modules/kernel.bin               \t\tkernel.bin               \n";
    assert_eq!(text, format!("{}{}\n\tboot\n}}\n", header("", "in"), line));
    assert_eq!(text.matches("\tmodule2 ").count(), 1);
}

#[test]
fn three_entries_give_three_lines_in_listing_order() {
    let text = render_document("/p", "/d", &names(&["a", "b", "c"]));
    let expected = format!(
        "{}\tmodule2 /modules/{:25}\t\t{:25}\n\tmodule2 /modules/{:25}\t\t{:25}\n\tmodule2 /modules/{:25}\t\t{:25}\n\n\tboot\n}}\n",
        header("/p", "/d"),
        "a", "a", "b", "b", "c", "c"
    );
    assert_eq!(text, expected);
    assert_eq!(text.matches("\tmodule2 /modules/").count(), 3);
}

#[test]
fn listing_order_is_kept() {
    let text = render_document("/p", "/d", &names(&["zeta", "alpha"]));
    let zeta = text.find("/modules/zeta").unwrap();
    let alpha = text.find("/modules/alpha").unwrap();
    assert!(zeta < alpha);
}

#[test]
fn rendering_twice_gives_the_same_bytes() {
    let listing = names(&["nano_core", "captain", "kernel.bin"]);
    let first = render_document("/opt/theseus", "/build", &listing);
    let second = render_document("/opt/theseus", "/build", &listing);
    assert_eq!(first.as_bytes(), second.as_bytes());
}

#[test]
fn another_order_gives_the_same_lines() {
    let first = render_document("/p", "/d", &names(&["a", "b", "c", "a"]));
    let second = render_document("/p", "/d", &names(&["c", "a", "a", "b"]));
    let mut first_lines: Vec<&str> = first.lines().collect();
    let mut second_lines: Vec<&str> = second.lines().collect();
    assert_ne!(first, second);
    first_lines.sort();
    second_lines.sort();
    assert_eq!(first_lines, second_lines);
}

#[test]
fn program_path_and_directory_stand_in_the_comments() {
    let text = render_document("/home/me/Theseus", "./build/grub-isofiles/modules", &Vec::new());
    assert!(text.starts_with("### This file has been autogenerated, do not manually modify it!\n### Generated by program: \"/home/me/Theseus\"\n### Input directory: \"./build/grub-isofiles/modules\"\n\nset timeout=0\nset default=0\n\n"));
}

#[test]
fn empty_program_path_is_written_as_empty() {
    let text = render_document("", "d", &Vec::new());
    assert!(text.contains("### Generated by program: \"\"\n"));
}
