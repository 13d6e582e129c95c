use radon::registry::InstalledPackage;
use radon::store::{
    entry_row, get_installed_packages, row_entry, rows_entries, write_installed_packages, Field,
};

fn entry(i: usize) -> InstalledPackage {
    InstalledPackage {
        name: format!("pkg{}", i),
        source: if i % 3 == 0 { None } else { Some("gitlab".to_string()) },
        build_system: "make".to_string(),
        location: format!("/usr/local/bin/pkg{}", i),
        build_file: if i % 2 == 0 { Some("Makefile".to_string()) } else { None },
        hash: Some(format!("{:064x}", i)),
        version: if i % 4 == 1 { Some("1.10".to_string()) } else { None },
    }
}

fn same(a: &InstalledPackage, b: &InstalledPackage) -> bool {
    a.name == b.name
        && a.source == b.source
        && a.build_system == b.build_system
        && a.location == b.location
        && a.build_file == b.build_file
        && a.hash == b.hash
        && a.version == b.version
}

fn round_trip(n: usize) {
    let written: Vec<InstalledPackage> = (0..n).map(entry).collect();
    let text = write_installed_packages(&written).expect("the registry is written");
    let read = get_installed_packages(&text);
    assert_eq!(read.len(), n);
    for i in 0..n {
        assert!(same(&read[i], &written[i]), "entry {} of {}", i, n);
    }
}

#[test]
fn no_entry_is_read_back_as_written() {
    round_trip(0);
    assert_eq!(write_installed_packages(&Vec::new()), Some("[]\n".to_string()));
}

#[test]
fn one_entry_is_read_back_as_written() {
    round_trip(1);
}

#[test]
fn many_entries_are_read_back_as_written_and_in_their_order() {
    round_trip(2);
    round_trip(7);
    round_trip(40);
}

#[test]
fn texts_that_need_quoting_are_read_back_as_written() {
    let odd = InstalledPackage {
        name: "null".to_string(),
        source: Some("~".to_string()),
        build_system: "true".to_string(),
        location: " /path with: colon # and hash ".to_string(),
        build_file: Some("*.nimble".to_string()),
        hash: Some("0123".to_string()),
        version: Some("".to_string()),
    };
    let text = write_installed_packages(&vec![odd.copy()]).unwrap();
    let read = get_installed_packages(&text);
    assert_eq!(read.len(), 1);
    assert!(same(&read[0], &odd));
}

#[test]
fn the_registry_is_written_field_by_field() {
    let e = InstalledPackage {
        name: "tool".to_string(),
        source: None,
        build_system: "cargo".to_string(),
        location: "/usr/local/bin/tool".to_string(),
        build_file: Some("Cargo.toml".to_string()),
        hash: Some("abc".to_string()),
        version: Some("0.3.1".to_string()),
    };
    assert_eq!(
        write_installed_packages(&vec![e]).unwrap(),
        "- name: tool\n  source: null\n  build_system: cargo\n  location: /usr/local/bin/tool\n  build_file: Cargo.toml\n  hash: abc\n  version: 0.3.1\n"
    );
}

#[test]
fn a_registry_is_read_whatever_the_order_of_its_fields() {
    let text = "- location: /l\n  version: 1.10\n  name: a\n  build_system: make\n  extra: ignored\n- name: b\n  build_system: cargo\n  location: /m\n  source: ~\n  hash: 'h'\n";
    let read = get_installed_packages(text);
    assert_eq!(read.len(), 2);
    assert_eq!(read[0].name, "a");
    assert_eq!(read[0].location, "/l");
    assert_eq!(read[0].version, Some("1.10".to_string()));
    assert_eq!(read[0].source, None);
    assert_eq!(read[0].hash, None);
    assert_eq!(read[1].name, "b");
    assert_eq!(read[1].source, None);
    assert_eq!(read[1].hash, Some("h".to_string()));
}

#[test]
fn a_registry_that_cannot_be_understood_has_no_entries() {
    assert!(get_installed_packages("").is_empty());
    assert!(get_installed_packages("not: a list").is_empty());
    assert!(get_installed_packages("- just a text\n").is_empty());
    assert!(get_installed_packages("- name: a\n  build_system: make\n").is_empty());
    assert!(get_installed_packages("- name: ~\n  build_system: make\n  location: /l\n").is_empty());
    assert!(get_installed_packages(
        "- name: a\n  build_system: make\n  location: /l\n- name: b\n"
    )
    .is_empty());
    assert!(get_installed_packages("- name: [a\n").is_empty());
}

#[test]
fn an_entry_is_a_mapping_of_seven_fields() {
    let row = entry_row(&entry(1));
    let keys: Vec<&str> = row.iter().map(|f| f.key.as_str()).collect();
    assert_eq!(
        keys,
        vec!["name", "source", "build_system", "location", "build_file", "hash", "version"]
    );
    assert_eq!(row[0].value, Some("pkg1".to_string()));
    assert_eq!(row[4].value, None);
    assert!(same(&row_entry(&row).unwrap(), &entry(1)));
}

#[test]
fn a_mapping_without_a_required_field_is_no_entry() {
    let field = |k: &str, v: Option<&str>| Field { key: k.to_string(), value: v.map(|s| s.to_string()) };
    let full = vec![
        field("build_system", Some("make")),
        field("location", Some("/l")),
        field("name", Some("a")),
    ];
    let e = row_entry(&full).unwrap();
    assert_eq!(e.name, "a");
    assert_eq!(e.source, None);
    assert!(row_entry(&full[..2].to_vec_fields()).is_none());
    let null_name = vec![
        field("build_system", Some("make")),
        field("location", Some("/l")),
        field("name", None),
    ];
    assert!(row_entry(&null_name).is_none());
    assert!(rows_entries(&vec![full.to_vec_fields(), null_name]).is_none());
    assert_eq!(rows_entries(&Vec::new()).map(|v| v.len()), Some(0));
}

trait ToVecFields {
    fn to_vec_fields(&self) -> Vec<Field>;
}

impl ToVecFields for [Field] {
    fn to_vec_fields(&self) -> Vec<Field> {
        self.iter().map(|f| Field { key: f.key.clone(), value: f.value.clone() }).collect()
    }
}
