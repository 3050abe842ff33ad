use hw_telemetry::cpu::{
    get_cpu_freq, get_cpu_usage, get_proc_stat, get_temperature, parse_cpu_freq,
    parse_proc_stat_line, read_sysfs_thermal, CpuData, CpuFiles,
};
use hw_telemetry::error::{FileError, SensorError};

const FREQ: &str = "/sys/devices/system/cpu/cpu3/cpufreq/scaling_cur_freq";
const HWMON: &str = "/sys/class/hwmon/hwmon2/temp1_input";

fn failed(kind: SensorError, path: &str) -> FileError {
    FileError {
        kind,
        path: Some(path.to_string()),
    }
}
use hw_telemetry::sysfs::Scaled;

const PROC_STAT: &str = "cpu  100 2 30 4000 50 6 7 8 9 10\ncpu0 60 1 20 2000 25 3 4 5 6 7\ncpu1 40 1 10 2000 25 3 3 3 3 3\nintr 12345 0 0\nctxt 999\nbtime 1700000000\nprocesses 4242\ncpufreq 1\n";

#[test]
fn stat_line_sums() {
    assert_eq!(
        parse_proc_stat_line("cpu  10 20 30 40 50 60 70 80 90 100"),
        Ok((90, 550))
    );
    assert_eq!(
        parse_proc_stat_line("cpu7 1 2 3 4 5 6 7 8 9 10"),
        Ok((9, 55))
    );
    assert_eq!(parse_proc_stat_line("cpu 0 0 0 0 0 0 0 0 0 0"), Ok((0, 0)));
}

#[test]
fn idle_is_idle_plus_iowait_and_total_is_the_sum() {
    let samples: [[u64; 10]; 4] = [
        [1, 2, 3, 4, 5, 6, 7, 8, 9, 10],
        [0, 0, 0, 0, 0, 0, 0, 0, 0, 0],
        [983_112, 4_410, 251_003, 71_230_118, 90_417, 0, 12_884, 0, 0, 0],
        [u32::MAX as u64, 1, 1, 1 << 40, 1 << 41, 5, 5, 5, 5, 5],
    ];
    for fields in samples {
        let line = format!(
            "cpu3 {} {} {} {} {} {} {} {} {} {}",
            fields[0],
            fields[1],
            fields[2],
            fields[3],
            fields[4],
            fields[5],
            fields[6],
            fields[7],
            fields[8],
            fields[9]
        );
        let (idle, total) = parse_proc_stat_line(&line).unwrap();
        assert_eq!(idle, fields[3] + fields[4]);
        assert_eq!(total, fields.iter().sum::<u64>());
    }
}

#[test]
fn sums_beyond_64_bits_saturate() {
    let line = format!("cpu 1 1 1 {} {} 1 1 1 1 1", u64::MAX, 5);
    assert_eq!(parse_proc_stat_line(&line), Ok((u64::MAX, u64::MAX)));
    let line = format!("cpu {} 1 0 0 0 0 0 0 0 0", u64::MAX);
    assert_eq!(parse_proc_stat_line(&line), Ok((0, u64::MAX)));
}

#[test]
fn a_line_of_another_shape_is_an_error() {
    assert_eq!(parse_proc_stat_line(""), Err(SensorError::Parse));
    assert_eq!(parse_proc_stat_line("intr 1 2 3 4 5 6 7 8 9 10"), Err(SensorError::Parse));
    assert_eq!(parse_proc_stat_line("cpu3 1 2 3 4 5 6 7 8 9"), Err(SensorError::Parse));
    assert_eq!(parse_proc_stat_line("cpu 1 2 3 x 5 6 7 8 9 10"), Err(SensorError::Parse));
    assert_eq!(parse_proc_stat_line("cpu 1 2 3 -4 5 6 7 8 9 10"), Err(SensorError::Parse));
    assert_eq!(parse_proc_stat_line("cpu"), Err(SensorError::Parse));
    assert_eq!(
        parse_proc_stat_line("cpu 1 2 3 4 5 6 7 8 9 18446744073709551616"),
        Err(SensorError::Parse)
    );
}

#[test]
fn counters_are_parted_by_white_space() {
    assert_eq!(parse_proc_stat_line("cpu\t1 2 3 4 5 6 7 8 9 10"), Ok((9, 55)));
    assert_eq!(
        parse_proc_stat_line("cpu2 1\t2  3 \t 4\u{a0}5 6 7 8 9 10\n"),
        Ok((9, 55))
    );
    assert_eq!(parse_proc_stat_line("cpu 1,2,3,4,5,6,7,8,9,10"), Err(SensorError::Parse));
    assert_eq!(parse_proc_stat_line("cpu 1 2 3 4 5 6 7 8 9 10x"), Ok((9, 55)));
    assert_eq!(parse_proc_stat_line("cpu 12345678910"), Err(SensorError::Parse));
}

#[test]
fn the_first_cpu_in_the_line_counts() {
    assert_eq!(
        parse_proc_stat_line("the cpu12   1 2 3 4 5 6 7 8 9 10 11 12"),
        Ok((9, 55))
    );
    assert_eq!(parse_proc_stat_line("cpu1 2 3 4 5 6 7 8 9 10 11"), Ok((11, 65)));
}

#[test]
fn the_line_of_a_core_is_picked() {
    assert_eq!(
        get_proc_stat(PROC_STAT, None).unwrap(),
        "cpu  100 2 30 4000 50 6 7 8 9 10"
    );
    assert_eq!(
        get_proc_stat(PROC_STAT, Some(0)).unwrap(),
        "cpu0 60 1 20 2000 25 3 4 5 6 7"
    );
    assert_eq!(
        get_proc_stat(PROC_STAT, Some(1)).unwrap(),
        "cpu1 40 1 10 2000 25 3 3 3 3 3"
    );
    assert_eq!(get_proc_stat(PROC_STAT, Some(2)).unwrap(), "cpufreq 1");
    assert_eq!(get_cpu_usage(PROC_STAT, None), Ok((4050, 4222)));
    assert_eq!(get_cpu_usage(PROC_STAT, Some(0)), Ok((2025, 2131)));
    assert_eq!(get_cpu_usage(PROC_STAT, Some(1)), Ok((2025, 2091)));
    assert_eq!(get_cpu_usage(PROC_STAT, Some(2)), Err(SensorError::Parse));
}

#[test]
fn a_core_beyond_the_lines_is_out_of_range() {
    // four lines begin with `cpu`
    for core in [3usize, 4, 5, 100, usize::MAX - 1, usize::MAX] {
        assert_eq!(get_cpu_usage(PROC_STAT, Some(core)), Err(SensorError::OutOfRange));
        assert_eq!(get_proc_stat(PROC_STAT, Some(core)), Err(SensorError::OutOfRange));
    }
    assert_eq!(get_cpu_usage("", None), Err(SensorError::OutOfRange));
    assert_eq!(get_cpu_usage("", Some(0)), Err(SensorError::OutOfRange));
    assert_eq!(get_cpu_usage("intr 1\nctxt 2\n", None), Err(SensorError::OutOfRange));
    assert_eq!(
        get_cpu_usage("cpu 1 1 1 1 1 1 1 1 1 1", Some(0)),
        Err(SensorError::OutOfRange)
    );
    assert_eq!(get_cpu_usage("cpu 1 1 1 1 1 1 1 1 1 1", None), Ok((2, 10)));
}

#[test]
fn frequency_is_in_hertz() {
    assert_eq!(parse_cpu_freq(Some("3600000\n")), Ok(3_600_000_000));
    assert_eq!(parse_cpu_freq(Some("800000")), Ok(800_000_000));
    assert_eq!(parse_cpu_freq(Some("0\n")), Ok(0));
    assert_eq!(parse_cpu_freq(Some("18446744073709551")), Ok(18_446_744_073_709_551_000));
    assert_eq!(parse_cpu_freq(Some("18446744073709552")), Err(SensorError::Parse));
    assert_eq!(parse_cpu_freq(Some("fast\n")), Err(SensorError::Parse));
    assert_eq!(parse_cpu_freq(Some("")), Err(SensorError::Parse));
    assert_eq!(parse_cpu_freq(Some("12 34")), Err(SensorError::Parse));
    assert_eq!(parse_cpu_freq(Some("12\n34\n")), Err(SensorError::Parse));
    assert_eq!(parse_cpu_freq(Some("1234\n\n")), Err(SensorError::Parse));
    assert_eq!(parse_cpu_freq(Some("\n")), Err(SensorError::Parse));
    assert_eq!(parse_cpu_freq(None), Err(SensorError::Unreadable));
}

#[test]
fn a_failed_frequency_carries_its_path() {
    assert_eq!(get_cpu_freq(FREQ, Some("3600000\n")), Ok(3_600_000_000));
    assert_eq!(get_cpu_freq(FREQ, Some("0")), Ok(0));
    assert_eq!(
        get_cpu_freq(FREQ, Some("fast\n")),
        Err(failed(SensorError::Parse, FREQ))
    );
    assert_eq!(
        get_cpu_freq(FREQ, Some("18446744073709552")),
        Err(failed(SensorError::Parse, FREQ))
    );
    assert_eq!(
        get_cpu_freq(FREQ, None),
        Err(failed(SensorError::Unreadable, FREQ))
    );
    assert_eq!(get_cpu_freq("", None), Err(failed(SensorError::Unreadable, "")));
}

#[test]
fn temperature_is_in_thousandths() {
    let reading = read_sysfs_thermal(HWMON, Some("45500\n")).unwrap();
    assert_eq!(reading, Scaled { raw: 45500, per_unit: 1000 });
    assert_eq!(reading.raw as f64 / reading.per_unit as f64, 45.5);
    assert_eq!(
        read_sysfs_thermal(HWMON, Some("-2000")),
        Ok(Scaled { raw: -2000, per_unit: 1000 })
    );
    assert_eq!(
        read_sysfs_thermal(HWMON, Some("warm")),
        Err(failed(SensorError::Parse, HWMON))
    );
    assert_eq!(
        read_sysfs_thermal(HWMON, Some("45\n500\n")),
        Err(failed(SensorError::Parse, HWMON))
    );
    assert_eq!(
        read_sysfs_thermal(HWMON, None),
        Err(failed(SensorError::Unreadable, HWMON))
    );
}

#[test]
fn without_a_sensor_there_is_no_temperature() {
    let sensor = Some(String::from(HWMON));
    let no_sensor = FileError {
        kind: SensorError::NoSensor,
        path: None,
    };
    assert_eq!(
        get_temperature(&sensor, Some("61000\n")),
        Ok(Scaled { raw: 61000, per_unit: 1000 })
    );
    assert_eq!(
        get_temperature(&sensor, None),
        Err(failed(SensorError::Unreadable, HWMON))
    );
    assert_eq!(
        get_temperature(&sensor, Some("61.0")),
        Err(failed(SensorError::Parse, HWMON))
    );
    assert_eq!(get_temperature(&None, Some("61000\n")), Err(no_sensor.clone()));
    assert_eq!(get_temperature(&None, None), Err(no_sensor));
}

#[test]
fn a_sample_holds_every_core() {
    let files = CpuFiles {
        proc_stat: Some(PROC_STAT.to_string()),
        temperature: Some("52000\n".to_string()),
        frequencies: vec![Some("1200000\n".to_string()), None, Some("x".to_string())],
    };
    let sensor = Some(String::from("/sys/class/thermal/thermal_zone0/temp"));
    let data = CpuData::new(5, &sensor, &files);
    assert_eq!(data.new_total_usage, (4050, 4222));
    assert_eq!(
        data.new_thread_usages,
        vec![(2025, 2131), (2025, 2091), (0, 0), (0, 0), (0, 0)]
    );
    assert_eq!(data.temperature, Ok(Scaled { raw: 52000, per_unit: 1000 }));
    assert_eq!(
        data.frequencies,
        vec![Some(1_200_000_000), None, None, None, None]
    );
}

#[test]
fn a_sample_without_files_is_empty_but_whole() {
    let files = CpuFiles {
        proc_stat: None,
        temperature: None,
        frequencies: Vec::new(),
    };
    let data = CpuData::new(2, &None, &files);
    assert_eq!(data.new_total_usage, (0, 0));
    assert_eq!(data.new_thread_usages, vec![(0, 0), (0, 0)]);
    assert_eq!(
        data.temperature,
        Err(FileError {
            kind: SensorError::NoSensor,
            path: None
        })
    );
    let sensor = Some(String::from(HWMON));
    assert_eq!(
        CpuData::new(1, &sensor, &files).temperature,
        Err(failed(SensorError::Unreadable, HWMON))
    );
    assert_eq!(data.frequencies, vec![None, None]);
    let none = CpuData::new(0, &None, &files);
    assert!(none.new_thread_usages.is_empty());
    assert!(none.frequencies.is_empty());
}
