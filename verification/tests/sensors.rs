use hw_telemetry::sensor::{
    cpu_temperature_path, search_for_hwmons, search_for_thermal_zones, SensorDir,
};

fn dir(path: &str, label: Option<&str>) -> SensorDir {
    SensorDir {
        path: path.to_string(),
        label: label.map(|l| l.to_string()),
    }
}

#[test]
fn zenpower_wins_over_coretemp_in_any_order() {
    let names = ["zenpower", "coretemp", "k10temp"];
    let one = vec![
        dir("/sys/class/hwmon/hwmon0", Some("coretemp\n")),
        dir("/sys/class/hwmon/hwmon1", Some("zenpower\n")),
    ];
    let other = vec![
        dir("/sys/class/hwmon/hwmon1", Some("zenpower\n")),
        dir("/sys/class/hwmon/hwmon0", Some("coretemp\n")),
    ];
    let expected = Some((
        "zenpower",
        String::from("/sys/class/hwmon/hwmon1/temp1_input"),
    ));
    assert_eq!(search_for_hwmons(&names, &one), expected);
    assert_eq!(search_for_hwmons(&names, &other), expected);
    assert_eq!(
        cpu_temperature_path(&one, &[]).as_deref(),
        Some("/sys/class/hwmon/hwmon1/temp1_input")
    );
    assert_eq!(
        cpu_temperature_path(&other, &[]).as_deref(),
        Some("/sys/class/hwmon/hwmon1/temp1_input")
    );
}

#[test]
fn the_first_directory_of_a_name_wins() {
    let names = ["coretemp"];
    let dirs = vec![
        dir("/sys/class/hwmon/hwmon3", Some("nvme\n")),
        dir("/sys/class/hwmon/hwmon4", None),
        dir("/sys/class/hwmon/hwmon5", Some("coretemp")),
        dir("/sys/class/hwmon/hwmon6", Some("coretemp\n")),
    ];
    assert_eq!(
        search_for_hwmons(&names, &dirs),
        Some(("coretemp", String::from("/sys/class/hwmon/hwmon5/temp1_input")))
    );
    assert_eq!(
        search_for_hwmons(&names, &dirs[..3]),
        Some(("coretemp", String::from("/sys/class/hwmon/hwmon5/temp1_input")))
    );
    assert_eq!(
        search_for_hwmons(&names, &dirs[3..]),
        Some(("coretemp", String::from("/sys/class/hwmon/hwmon6/temp1_input")))
    );
}

#[test]
fn a_name_must_match_whole() {
    let names = ["k10temp"];
    let dirs = vec![
        dir("/sys/class/hwmon/hwmon0", Some("k10temp2\n")),
        dir("/sys/class/hwmon/hwmon1", Some(" k10temp\n")),
        dir("/sys/class/hwmon/hwmon2", Some("K10TEMP\n")),
        dir("/sys/class/hwmon/hwmon3", Some("k10\n")),
        dir("/sys/class/hwmon/hwmon4", Some("")),
        dir("/sys/class/hwmon/hwmon5", Some("k10temp\n\n")),
        dir("/sys/class/hwmon/hwmon6", Some("k10temp \n")),
        dir("/sys/class/hwmon/hwmon7", Some("k10\ntemp\n")),
    ];
    assert_eq!(search_for_hwmons(&names, &dirs), None);
    assert_eq!(search_for_hwmons(&[], &dirs), None);
    assert_eq!(search_for_hwmons(&names, &[]), None);
}

#[test]
fn thermal_zones_give_temp() {
    let types = ["x86_pkg_temp", "acpitz"];
    let zones = vec![
        dir("/sys/class/thermal/thermal_zone0", Some("acpitz\n")),
        dir("/sys/class/thermal/thermal_zone1", Some("x86_pkg_temp\n")),
    ];
    assert_eq!(
        search_for_thermal_zones(&types, &zones),
        Some((
            "x86_pkg_temp",
            String::from("/sys/class/thermal/thermal_zone1/temp")
        ))
    );
    assert_eq!(
        search_for_thermal_zones(&types[1..], &zones),
        Some(("acpitz", String::from("/sys/class/thermal/thermal_zone0/temp")))
    );
}

#[test]
fn thermal_zones_are_the_fallback() {
    let hwmons = vec![
        dir("/sys/class/hwmon/hwmon0", Some("nvme\n")),
        dir("/sys/class/hwmon/hwmon1", Some("amdgpu\n")),
    ];
    let zones = vec![dir("/sys/class/thermal/thermal_zone0/", Some("acpitz\n"))];
    assert_eq!(
        cpu_temperature_path(&hwmons, &zones).as_deref(),
        Some("/sys/class/thermal/thermal_zone0/temp")
    );
    assert_eq!(cpu_temperature_path(&hwmons, &[]), None);
    assert_eq!(cpu_temperature_path(&[], &[]), None);
    let with_k10 = vec![
        dir("/sys/class/hwmon/hwmon0", Some("nvme\n")),
        dir("/sys/class/hwmon/hwmon7", Some("k10temp\n")),
    ];
    assert_eq!(
        cpu_temperature_path(&with_k10, &zones).as_deref(),
        Some("/sys/class/hwmon/hwmon7/temp1_input")
    );
}
