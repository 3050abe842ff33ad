use hw_telemetry::uevent::{entry, lookup};

fn chars(s: &str) -> Vec<char> {
    s.chars().collect()
}

fn value(text: &str, key: &str) -> Option<String> {
    lookup(&chars(text), &chars(key)).map(|v| v.into_iter().collect())
}

const UEVENT: &str = "DRIVER=i915\nPCI_CLASS=30000\nPCI_ID=8086:9A49\nPCI_SUBSYS_ID=17AA:22D5\nPCI_SLOT_NAME=0000:00:02.0\nMODALIAS=pci:v00008086d00009A49sv000017AAsd000022D5bc03sc00i00\n";

#[test]
fn each_key_has_its_value() {
    assert_eq!(value(UEVENT, "DRIVER").as_deref(), Some("i915"));
    assert_eq!(value(UEVENT, "PCI_ID").as_deref(), Some("8086:9A49"));
    assert_eq!(value(UEVENT, "PCI_SLOT_NAME").as_deref(), Some("0000:00:02.0"));
    assert_eq!(
        value(UEVENT, "MODALIAS").as_deref(),
        Some("pci:v00008086d00009A49sv000017AAsd000022D5bc03sc00i00")
    );
    assert_eq!(value(UEVENT, "PCI"), None);
    assert_eq!(value(UEVENT, "PCI_ID "), None);
    assert_eq!(value(UEVENT, "driver"), None);
    assert_eq!(value(UEVENT, ""), None);
    assert_eq!(value("", "DRIVER"), None);
}

#[test]
fn the_last_entry_of_a_key_counts() {
    assert_eq!(value("A=1\nB=2\nA=3\n", "A").as_deref(), Some("3"));
    assert_eq!(value("A=1\nB=2\nA=3", "A").as_deref(), Some("3"));
    assert_eq!(value("A=1\nB=2\nA", "A").as_deref(), Some("1"));
    assert_eq!(value("A=1\nB=2\nA=3\n", "B").as_deref(), Some("2"));
}

#[test]
fn a_key_ends_at_the_first_equals_sign() {
    assert_eq!(value("A=b=c\n", "A").as_deref(), Some("b=c"));
    assert_eq!(value("A=b=c\n", "A=b"), None);
    assert_eq!(value("=x\n", "").as_deref(), Some("x"));
    assert_eq!(value("A=\n", "A").as_deref(), Some(""));
    assert_eq!(value("A =1\n", "A"), None);
    assert_eq!(value(" A=1\n", "A"), None);
    assert_eq!(value("A=1\r\n", "A").as_deref(), Some("1\r"));
}

#[test]
fn a_line_is_an_entry_or_none() {
    let entry_of = |line: &str, key: &str| {
        entry(&chars(line), &chars(key)).map(|v| v.into_iter().collect::<String>())
    };
    assert_eq!(entry_of("DRIVER=amdgpu", "DRIVER").as_deref(), Some("amdgpu"));
    assert_eq!(entry_of("DRIVER=amdgpu", "DRIVE"), None);
    assert_eq!(entry_of("DRIVER", "DRIVER"), None);
    assert_eq!(entry_of("", ""), None);
    assert_eq!(entry_of("=", "").as_deref(), Some(""));
}
