use flatpak_sync::{
    decimal_string, install_command, key_file_path, keygen_args, copy_id_args, public_key_file_path,
    shell_quote, Flatpak, InstallType, RemoteTarget, SshOpts,
};

#[test]
fn scope_system_when_options_contain_system() {
    assert_eq!(InstallType::from_flatpak_options("system;"), InstallType::System);
    assert_eq!(InstallType::from_flatpak_options("current,system"), InstallType::System);
}

#[test]
fn scope_user_otherwise() {
    assert_eq!(InstallType::from_flatpak_options("user;notification"), InstallType::User);
    assert_eq!(InstallType::from_flatpak_options(""), InstallType::User);
    assert_eq!(InstallType::from_flatpak_options("syste"), InstallType::User);
    assert_eq!(InstallType::from_flatpak_options("Systemwide"), InstallType::User);
}

#[test]
fn flag_strings() {
    assert_eq!(InstallType::System.flag_string(), "--system");
    assert_eq!(InstallType::User.flag_string(), "--user");
}

#[test]
fn new_package_is_selected() {
    let f = Flatpak::new("org.app.One", "system");
    assert_eq!(f.name, "org.app.One");
    assert_eq!(f.install_type, InstallType::System);
    assert!(f.should_sync);
}

#[test]
fn parse_list_skips_lines_without_two_fields() {
    let text = "org.a.App\tsystem\nbroken-line\n\norg.b.App\tuser\n";
    let list = Flatpak::parse_list(text);
    assert_eq!(list.len(), 2);
    assert_eq!(list[0].name, "org.a.App");
    assert_eq!(list[0].install_type, InstallType::System);
    assert_eq!(list[1].name, "org.b.App");
    assert_eq!(list[1].install_type, InstallType::User);
}

#[test]
fn parse_list_only_malformed_lines() {
    assert!(Flatpak::parse_list("one\ntwo\n\n").is_empty());
    assert!(Flatpak::parse_list("").is_empty());
}

#[test]
fn parse_list_ignores_extra_fields_and_crlf() {
    let list = Flatpak::parse_list("org.c.App\tuser\tsystem\r\norg.d.App\tsystem\r\n");
    assert_eq!(list.len(), 2);
    assert_eq!(list[0].name, "org.c.App");
    assert_eq!(list[0].install_type, InstallType::User);
    assert_eq!(list[1].install_type, InstallType::System);
}

#[test]
fn parse_list_last_line_without_newline_and_empty_name() {
    let list = Flatpak::parse_list("\tsystem\norg.e.App\t");
    assert_eq!(list.len(), 1);
    assert_eq!(list[0].name, "org.e.App");
    assert_eq!(list[0].install_type, InstallType::User);
}

#[test]
fn parse_line_cases() {
    assert!(Flatpak::parse_line("no-tab").is_none());
    let f = Flatpak::parse_line("org.f.App\tsystem,current").unwrap();
    assert_eq!(f.name, "org.f.App");
    assert_eq!(f.install_type, InstallType::System);
}

#[test]
fn quoting_plain_and_with_quotes() {
    assert_eq!(shell_quote("org.app.One"), "'org.app.One'");
    assert_eq!(shell_quote("a'b"), "'a'\\''b'");
    assert_eq!(shell_quote(""), "''");
    assert_eq!(shell_quote("x; rm -rf ~"), "'x; rm -rf ~'");
}

#[test]
fn install_commands() {
    let user = Flatpak::new("org.app.One", "user");
    assert_eq!(install_command(&user), "flatpak install --user 'org.app.One' -y");
    let system = Flatpak::new("it's", "system");
    assert_eq!(install_command(&system), "flatpak install --system 'it'\\''s' -y");
}

#[test]
fn decimal_ports() {
    assert_eq!(decimal_string(0), "0");
    assert_eq!(decimal_string(22), "22");
    assert_eq!(decimal_string(2222), "2222");
    assert_eq!(decimal_string(65535), "65535");
}

#[test]
fn key_paths() {
    let k = key_file_path("/keys", "desk.local");
    assert_eq!(k, "/keys/desk.local_sync-key");
    assert_eq!(public_key_file_path(&k), "/keys/desk.local_sync-key.pub");
}

#[test]
fn keygen_and_copy_id_arguments() {
    let args = keygen_args("/keys/h_sync-key", "h");
    assert_eq!(args, vec!["-t", "rsa", "-N", "", "-f", "/keys/h_sync-key", "-C", "flatpak-sync@h"]);
    let target = RemoteTarget::new("alice", "desk.local", 2200);
    let args = copy_id_args("/keys/k", &target);
    assert_eq!(args, vec!["-i", "/keys/k", "-p", "2200", "alice@desk.local"]);
}

#[test]
fn options_target_and_exclusions() {
    let opts = SshOpts {
        username: String::from("bob"),
        remote_host: String::from("laptop"),
        port: 22,
        exclude: vec![String::from("org.b.App")],
    };
    let t = opts.target();
    assert_eq!(t.username, "bob");
    assert_eq!(t.host, "laptop");
    assert_eq!(t.port, 22);
    let list = vec![Flatpak::new("org.a.App", "user"), Flatpak::new("org.b.App", "system")];
    let out = opts.apply_exclusions(&list);
    assert_eq!(out.len(), 2);
    assert!(out[0].should_sync);
    assert!(!out[1].should_sync);
    assert_eq!(out[1].name, "org.b.App");
    assert_eq!(out[1].install_type, InstallType::System);
}
