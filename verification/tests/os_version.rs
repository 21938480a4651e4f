use hostprobe::os_family::{classify_os, get_uname, OsFamily};
use hostprobe::os_version::{get_os_version, read_kernel_release, read_pretty_name, OsVersionEvidence};
use hostprobe::text::{chars_of, string_of};

fn text(s: &str) -> Option<String> {
    Some(s.to_string())
}

fn kernel(content: &str) -> String {
    string_of(&read_kernel_release(&chars_of(content)))
}

fn pretty(content: &str) -> String {
    string_of(&read_pretty_name(&chars_of(content)))
}

#[test]
fn classifier_knows_linux_and_darwin() {
    assert_eq!(classify_os("Linux"), OsFamily::Linux);
    assert_eq!(classify_os("Darwin"), OsFamily::Darwin);
}

#[test]
fn classifier_keeps_the_name_of_other_systems() {
    assert_eq!(classify_os("FreeBSD"), OsFamily::Unknown("FreeBSD".to_string()));
    assert_eq!(classify_os(""), OsFamily::Unknown(String::new()));
}

#[test]
fn classifier_is_case_sensitive_and_exact() {
    assert_eq!(classify_os("linux"), OsFamily::Unknown("linux".to_string()));
    assert_eq!(classify_os("DARWIN"), OsFamily::Unknown("DARWIN".to_string()));
    assert_eq!(classify_os("Linux "), OsFamily::Unknown("Linux ".to_string()));
    assert_eq!(classify_os("Linux2"), OsFamily::Unknown("Linux2".to_string()));
}

#[test]
fn uname_output_is_trimmed() {
    assert_eq!(get_uname("Linux\n"), "Linux");
    assert_eq!(get_uname("  Darwin \r\n"), "Darwin");
    assert_eq!(get_uname(""), "");
    assert_eq!(classify_os(&get_uname("Linux\n")), OsFamily::Linux);
}

#[test]
fn linux_version_from_release_file_and_kernel_line() {
    let mut e = OsVersionEvidence::new();
    e.os_release = text("NAME=\"Ubuntu\"\nPRETTY_NAME=\"Ubuntu 22.04.3 LTS\"\nID=ubuntu\n");
    e.kernel_version = text("Linux version 5.15.0-88-generic (buildd@lcy02-amd64-058) (gcc 11.4.0)\n");
    assert_eq!(get_os_version("Linux", &e), "Ubuntu 22.04.3 LTS (Linux 5.15.0-88-generic)");
}

#[test]
fn linux_version_with_the_two_lines_alone() {
    let mut e = OsVersionEvidence::new();
    e.os_release = text("PRETTY_NAME=\"Ubuntu 22.04.3 LTS\"");
    e.kernel_version = text("Linux version 5.15.0-88-generic (...)");
    assert_eq!(get_os_version("Linux", &e), "Ubuntu 22.04.3 LTS (Linux 5.15.0-88-generic)");
}

#[test]
fn linux_version_without_evidence_keeps_its_frame() {
    let e = OsVersionEvidence::new();
    assert_eq!(get_os_version("Linux", &e), " (Linux )");
}

#[test]
fn short_kernel_line_gives_no_release() {
    assert_eq!(kernel("Linux version"), "");
    assert_eq!(kernel(""), "");
    assert_eq!(kernel("\n6.1.0 a b c"), "");
}

#[test]
fn kernel_release_is_the_third_field_of_the_first_line() {
    assert_eq!(kernel("Linux version 6.1.0-13-amd64 (debian-kernel@lists.debian.org)"), "6.1.0-13-amd64");
    assert_eq!(kernel("a b c d\ne f g h\n"), "c");
    assert_eq!(kernel("a b c"), "c");
}

#[test]
fn kernel_fields_are_separated_by_any_run_of_white_space() {
    assert_eq!(kernel("Linux  version\t6.6.8   (x)"), "6.6.8");
    assert_eq!(kernel("  Linux version 6.6.8\r\n"), "6.6.8");
}

#[test]
fn pretty_name_loses_key_and_quotes() {
    assert_eq!(pretty("PRETTY_NAME=\"Arch Linux\"\n"), "Arch Linux");
    assert_eq!(pretty("ID=arch\nPRETTY_NAME=\"Arch Linux\"\r\nPRETTY_NAME=\"Other\"\n"), "Arch Linux");
    assert_eq!(pretty("PRETTY_NAME=\" Fedora Linux 39 \"\n"), "Fedora Linux 39");
    assert_eq!(pretty("PRETTY_NAME=  \"Debian GNU/Linux 12 (bookworm)\"  \n"), "Debian GNU/Linux 12 (bookworm)");
}

#[test]
fn pretty_name_without_quotes_is_the_value() {
    assert_eq!(pretty("PRETTY_NAME=Void\n"), "Void");
    assert_eq!(pretty("PRETTY_NAME=Arch Linux\n"), "Arch Linux");
    assert_eq!(pretty("PRETTY_NAME=\n"), "");
}

#[test]
fn pretty_name_keeps_the_quotes_inside() {
    assert_eq!(pretty("PRETTY_NAME=\"The \"Best\" Linux\"\n"), "The \"Best\" Linux");
    assert_eq!(pretty("PRETTY_NAME=Tom\"s Linux\n"), "Tom\"s Linux");
}

#[test]
fn pretty_name_keeps_a_quote_that_has_no_partner() {
    assert_eq!(pretty("PRETTY_NAME=\"Open\n"), "\"Open");
    assert_eq!(pretty("PRETTY_NAME=Open\"\n"), "Open\"");
    assert_eq!(pretty("PRETTY_NAME=\"\n"), "\"");
    assert_eq!(pretty("PRETTY_NAME=\"\"\n"), "");
}

#[test]
fn pretty_name_line_without_the_key_and_equals_sign_gives_nothing() {
    assert_eq!(pretty("PRETTY_NAME_EXTRA=x\nPRETTY_NAME=\"later\"\n"), "");
    assert_eq!(pretty("PRETTY_NAME\n"), "");
}

#[test]
fn linux_version_with_an_unquoted_name() {
    let mut e = OsVersionEvidence::new();
    e.os_release = text("NAME=Arch\nPRETTY_NAME=Arch Linux\n");
    e.kernel_version = text("Linux version 6.6.1-arch1-1 (x)\n");
    assert_eq!(get_os_version("Linux", &e), "Arch Linux (Linux 6.6.1-arch1-1)");
}

#[test]
fn release_file_without_pretty_name_gives_nothing() {
    assert_eq!(pretty("NAME=x\nID=y\n"), "");
    assert_eq!(pretty(" PRETTY_NAME=\"indented\"\n"), "");
    assert_eq!(pretty(""), "");
}

#[test]
fn darwin_version_joins_three_answers() {
    let mut e = OsVersionEvidence::new();
    e.product_name = text("macOS\n");
    e.product_version = text("12.6\n");
    e.build_version = text("21G115\n");
    assert_eq!(get_os_version("Darwin", &e), "macOS 12.6 (21G115)");
}

#[test]
fn darwin_version_without_answers_keeps_its_frame() {
    let e = OsVersionEvidence::new();
    assert_eq!(get_os_version("Darwin", &e), "  ()");
}

#[test]
fn unknown_family_shows_its_name() {
    let mut e = OsVersionEvidence::new();
    e.os_release = text("PRETTY_NAME=\"x\"");
    assert_eq!(get_os_version("FreeBSD", &e), "Unknown FreeBSD");
    assert_eq!(get_os_version("", &e), "Unknown ");
}
