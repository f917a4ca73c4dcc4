use libcore2::header::{header_file_name, output_dir};

#[test]
fn header_file_name_is_fixed() {
    assert_eq!(header_file_name(), "libcore2.h");
    assert_eq!(header_file_name(), header_file_name());
}

#[test]
fn output_dir_defaults_to_current_directory() {
    assert_eq!(output_dir(None), ".");
}

#[test]
fn output_dir_keeps_configured_value() {
    assert_eq!(output_dir(Some(String::from("target/include"))), "target/include");
    assert_eq!(output_dir(Some(String::from("/abs/out/"))), "/abs/out/");
}

#[test]
fn output_dir_keeps_empty_configured_value() {
    assert_eq!(output_dir(Some(String::new())), "");
}

#[test]
fn output_dir_does_not_take_default_for_configured_dot_dot() {
    assert_eq!(output_dir(Some(String::from(".."))), "..");
}

#[test]
fn default_header_lands_beside_the_caller() {
    let path = std::path::PathBuf::from(output_dir(None)).join(header_file_name());
    assert_eq!(path, std::path::PathBuf::from("./libcore2.h"));
}
