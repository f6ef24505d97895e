use std::path::{Path, PathBuf};

use pi_image_builder::configuration::{SysctlEntry, SysctlList};
use pi_image_builder::paths::{append_to_root, get_urls, join_paths, join_url};

#[test]
fn join_pacman() {
    let expected_path = PathBuf::from("./fake-root/fake-dir/fake-file");
    let mounted_root = Path::new("./fake-root");
    let config_path = "fake-dir/fake-file";
    let actual_path = PathBuf::from(join_paths(mounted_root.to_str().unwrap(), config_path));
    assert_eq!(actual_path, expected_path);
}

#[test]
fn boot_path() {
    let expected_path = PathBuf::from("./fake-root/boot/boot.txt");
    let mounted_boot = Path::new("./fake-root/boot");
    let boot_file = "boot.txt";
    let actual_path = PathBuf::from(join_paths(mounted_boot.to_str().unwrap(), boot_file));
    assert_eq!(actual_path, expected_path);
}

#[test]
fn validate_sysctl_write() {
    let expected = "net.bridge.bridge-nf-call-ip6tables=1\nnet.bridge.bridge-nf-call-iptables=1\n";

    let tested = SysctlList::new(
        &[
            SysctlEntry::new("net.bridge.bridge-nf-call-ip6tables", "1"),
            SysctlEntry::new("net.bridge.bridge-nf-call-iptables", "1"),
        ],
        "meow.conf",
        true,
    )
    .unwrap()
    .collect_sysctls();

    assert_eq!(tested, expected)
}

#[test]
fn join_paths_drops_leading_slashes() {
    assert_eq!(join_paths("./fake-root", "/etc/mkinitcpio.conf"), "./fake-root/etc/mkinitcpio.conf");
    assert_eq!(join_paths("./fake-root/", "//etc/fstab"), "./fake-root/etc/fstab");
    assert_eq!(join_paths("", "boot.txt"), "boot.txt");
}

#[test]
fn append_to_root_keeps_absolute_parts() {
    assert_eq!(append_to_root("./fake-root", "boot"), "./fake-root/boot");
    assert_eq!(append_to_root("/mnt/", "proc"), "/mnt/proc");
    assert_eq!(append_to_root("./fake-root", "/dev"), "/dev");
}

#[test]
fn sysctl_list_names_its_drop_in_file() {
    let list = SysctlList::new(&[SysctlEntry::new("vm.swappiness", "10")], "10-kubernetes.conf", true)
        .unwrap();
    assert_eq!(list.drop_in_file(), "/etc/sysctl.d/10-kubernetes.conf");
    assert_eq!(list.collect_sysctls(), "vm.swappiness=10\n");
}

#[test]
fn sysctl_list_without_entries_is_one_line_feed() {
    let list = SysctlList::new(&[], "empty.conf", true).unwrap();
    assert_eq!(list.collect_sysctls(), "\n");
}

#[test]
fn sysctl_list_refuses_missing_drop_in_dir() {
    let err = match SysctlList::new(&[SysctlEntry::new("a", "b")], "x.conf", false) {
        Ok(_) => panic!("a missing drop-in directory must be refused"),
        Err(e) => e,
    };
    assert_eq!(err.drop_in_path(), "/etc/sysctl.d/");
    assert_eq!(
        err.message(),
        "/etc/sysctl.d/ is not a valid sysctl drop in directory, the path must be a directory and exist"
    );
}

#[test]
fn sysctl_entry_line() {
    assert_eq!(SysctlEntry::new("net.ipv4.ip_forward", "1").write_to_string(), "net.ipv4.ip_forward=1");
}

#[test]
fn get_urls_joins_trimmed_parts() {
    assert_eq!(
        get_urls("http://os.archlinuxarm.org/os/", "ArchLinuxARM-rpi-aarch64-latest.tar.gz"),
        "http://os.archlinuxarm.org/os/ArchLinuxARM-rpi-aarch64-latest.tar.gz"
    );
    assert_eq!(get_urls("  http://mirror/os /", " image.tar.gz\n"), "http://mirror/os/image.tar.gz");
}

#[test]
fn join_url_puts_one_slash() {
    assert_eq!(join_url("http://a/b", "c.md5"), "http://a/b/c.md5");
}
