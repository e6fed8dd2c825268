use dbkp::databases::postgres::pg_utils::{install_os, usual_directories, InstallOs};
use dbkp::text::trim_text;

#[test]
fn install_os_is_read_from_the_os_name() {
    assert_eq!(install_os("macos"), InstallOs::MacOs);
    assert_eq!(install_os("linux"), InstallOs::Linux);
    assert_eq!(install_os("windows"), InstallOs::Windows);
    assert_eq!(install_os("freebsd"), InstallOs::Other);
    assert_eq!(install_os("Linux"), InstallOs::Other);
}

#[test]
fn usual_directories_on_linux_and_macos() {
    assert_eq!(
        usual_directories(InstallOs::Linux, None, None),
        vec!["/usr/lib/postgresql", "/usr/local/pgsql", "/var/lib/postgresql", "/opt/postgresql"]
    );
    assert_eq!(
        usual_directories(InstallOs::MacOs, Some("X:"), None),
        vec![
            "/usr/local/pgsql",
            "/usr/local/postgresql",
            "/opt/homebrew/opt/postgresql",
            "/Applications/Postgres.app/Contents/Versions"
        ]
    );
    assert!(usual_directories(InstallOs::Other, None, None).is_empty());
}

#[test]
fn usual_directories_on_windows_use_program_files() {
    assert_eq!(
        usual_directories(InstallOs::Windows, None, None),
        vec!["C:\\Program Files\\PostgreSQL", "C:\\Program Files (x86)\\PostgreSQL"]
    );
    assert_eq!(
        usual_directories(InstallOs::Windows, Some("D:\\Apps"), Some("E:\\Old")),
        vec!["D:\\Apps\\PostgreSQL", "E:\\Old\\PostgreSQL"]
    );
}

#[test]
fn trim_text_strips_white_space_at_both_ends() {
    assert_eq!(trim_text("  /usr/lib/postgresql/16/bin\n"), "/usr/lib/postgresql/16/bin");
    assert_eq!(trim_text("\t a b \u{3000}"), "a b");
    assert_eq!(trim_text("   "), "");
    assert_eq!(trim_text(""), "");
    assert_eq!(trim_text("x"), "x");
}
