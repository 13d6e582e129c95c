use radon::command::lookup;
use radon::host::{
    check_deps, detect_package_manager, get_privilege_command, missing, package_manager_paths,
    remedy, setup_radon_dirs,
};

fn names(items: &[&str]) -> Vec<String> {
    items.iter().map(|s| s.to_string()).collect()
}

#[test]
fn doas_is_preferred_where_it_is_there() {
    assert_eq!(get_privilege_command(true), "doas");
    assert_eq!(get_privilege_command(false), "sudo");
}

#[test]
fn a_tool_is_looked_up_by_the_shell() {
    let run = lookup("cmake");
    assert_eq!(run.program, "sh");
    assert_eq!(run.args, vec!["-c", "command -v cmake"]);
    assert_eq!(run.dir, None);
    assert!(run.quiet);
}

#[test]
fn all_missing_tools_are_reported_in_one_pass() {
    let deps = names(&["foo", "bar", "make", "baz"]);
    assert_eq!(missing(&deps, &vec![false, true, false, false]), vec!["foo", "make", "baz"]);
    assert_eq!(missing(&deps, &vec![true, true, true, true]), Vec::<String>::new());
    assert_eq!(missing(&deps, &vec![false, false, false, false]), deps);
}

#[test]
fn a_tool_without_a_probe_result_is_missing() {
    let deps = names(&["a", "b", "c"]);
    assert_eq!(missing(&deps, &vec![true]), vec!["b", "c"]);
    assert_eq!(missing(&deps, &Vec::new()), deps);
    assert_eq!(missing(&Vec::new(), &vec![false]), Vec::<String>::new());
}

#[test]
fn the_check_passes_where_nothing_is_missing() {
    assert!(check_deps(&names(&["a", "b"]), &vec![true, true], &Vec::new()).is_ok());
    assert!(check_deps(&Vec::new(), &Vec::new(), &Vec::new()).is_ok());
}

#[test]
fn the_check_names_everything_that_is_missing() {
    let deps = names(&["foo", "bar", "make"]);
    let present = names(&["/etc/pacman.conf"]);
    let m = check_deps(&deps, &vec![false, true, false], &present).err().unwrap();
    assert_eq!(m.tools, vec!["foo", "make"]);
    assert_eq!(m.remedy, "sudo pacman -S foo make");
}

#[test]
fn the_remedy_names_the_package_manager() {
    assert_eq!(remedy("apt install", &names(&["gcc"])), "sudo apt install gcc");
    assert_eq!(remedy("xbps-install", &names(&["a", "b", "c"])), "sudo xbps-install a b c");
    assert_eq!(remedy("dnf install", &Vec::new()), "sudo dnf install ");
}

#[test]
fn package_managers_are_tried_in_a_fixed_order() {
    let paths = package_manager_paths();
    assert_eq!(
        paths,
        vec![
            "/etc/apt/sources.list",
            "/etc/pacman.conf",
            "/etc/xbps.d",
            "/etc/dnf/dnf.conf",
            "/etc/zypp/zypp.conf"
        ]
    );
    let commands = ["apt install", "pacman -S", "xbps-install", "dnf install", "zypper install"];
    for i in 0..paths.len() {
        assert_eq!(detect_package_manager(&vec![paths[i].clone()]), commands[i]);
        let rest: Vec<String> = paths[i..].to_vec();
        assert_eq!(detect_package_manager(&rest), commands[i]);
    }
}

#[test]
fn an_unknown_host_gets_a_placeholder() {
    assert_eq!(detect_package_manager(&Vec::new()), "your-package-manager install");
    assert_eq!(
        detect_package_manager(&names(&["/etc/portage"])),
        "your-package-manager install"
    );
}

#[test]
fn nothing_is_set_up_where_everything_is_there() {
    assert!(setup_radon_dirs("sudo", true, true, true).is_empty());
}

#[test]
fn everything_is_set_up_on_a_fresh_host() {
    let steps = setup_radon_dirs("doas", false, false, false);
    assert_eq!(steps.len(), 3);
    assert_eq!(steps[0].run.program, "doas");
    assert_eq!(steps[0].run.args, vec!["mkdir", "-p", "/etc/radon"]);
    assert!(!steps[0].needs_previous);
    assert_eq!(steps[1].run.args, vec!["touch", "/etc/radon/installed.yaml"]);
    assert!(steps[1].needs_previous);
    assert_eq!(steps[2].run.args, vec!["mkdir", "-p", "/var/lib/radon/buildfiles"]);
    assert!(!steps[2].needs_previous);
}

#[test]
fn a_missing_store_is_made() {
    let steps = setup_radon_dirs("sudo", true, true, false);
    assert_eq!(steps.len(), 1);
    assert_eq!(steps[0].run.program, "sudo");
    assert_eq!(steps[0].run.args, vec!["mkdir", "-p", "/var/lib/radon/buildfiles"]);
    let other = setup_radon_dirs("sudo", false, true, true);
    assert_eq!(other.len(), 2);
    assert_eq!(other[1].run.args, vec!["touch", "/etc/radon/installed.yaml"]);
}
