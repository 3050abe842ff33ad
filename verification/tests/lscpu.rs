use hw_telemetry::cpu::{cpu_info, parse_lscpu, trade_mark_symbols, CpuInfo};
use hw_telemetry::error::SensorError;

const LSCPU_OUTPUT: &str = "Architecture:             x86_64\n  CPU op-mode(s):         32-bit, 64-bit\n  Address sizes:          48 bits physical, 48 bits virtual\n  Byte Order:             Little Endian\nCPU(s):                   16\n  On-line CPU(s) list:    0-7\nVendor ID:                UnauthenticIngenuineManufacturer\n  Model name:             UIM(R) Abacus(tm) 10\n    CPU family:           1\n    Model:                2\n    Thread(s) per core:   2\n    Core(s) per socket:   4\n    Socket(s):            2\n    Stepping:             2\n    Frequency boost:      enabled\n    CPU(s) scaling MHz:   100%\n    CPU max MHz:          3.0000\n    CPU min MHz:          2.0000\n    BogoMIPS:             0.0\nVirtualization features:  \n  Virtualization:         Abacus-V\nCaches (sum of all):      \n  L1d:                    256 KiB (8 instances)\n  L1i:                    256 KiB (8 instances)\n  L2:                     4 MiB (8 instances)\n  L3:                     32 MiB (1 instance)\nNUMA:                     \n  NUMA node(s):           1\n  NUMA node0 CPU(s):      0-15\n";

#[test]
fn lscpu_complex() {
    let parsed = parse_lscpu(LSCPU_OUTPUT);

    let expected = CpuInfo {
        model_name: Some("UIM® Abacus™ 10".into()),
        architecture: Some("x86_64".into()),
        logical_cpus: Some(16),
        physical_cpus: Some(8),
        sockets: Some(2),
        virtualization: Some("Abacus-V".into()),
        max_speed: Some(3000000),
    };

    assert_eq!(parsed, expected);
    assert_eq!(parsed.max_speed.map(|hz| hz as f64), Some(3000000.0));
}

#[test]
fn trade_marks_are_substituted() {
    assert_eq!(trade_mark_symbols("UIM(R) Abacus(tm) 10"), "UIM® Abacus™ 10");
    assert_eq!(trade_mark_symbols("A(TM) b(R)(R)"), "A™ b®®");
    assert_eq!(trade_mark_symbols("(r) (Tm) (R"), "(r) (Tm) (R");
    assert_eq!(trade_mark_symbols(""), "");
    assert_eq!(trade_mark_symbols("((R))"), "(®)");
}

#[test]
fn literal_block_gives_each_field() {
    let parsed = parse_lscpu(LSCPU_OUTPUT);
    assert_eq!(parsed.architecture.as_deref(), Some("x86_64"));
    assert_eq!(parsed.logical_cpus, Some(16));
    assert_eq!(parsed.physical_cpus, Some(8));
    assert_eq!(parsed.sockets, Some(2));
    assert_eq!(parsed.max_speed, Some(3_000_000));
    assert_eq!(parsed.virtualization.as_deref(), Some("Abacus-V"));
}

#[test]
fn physical_cpus_is_cores_times_sockets() {
    for (cores, sockets) in [(1usize, 1usize), (4, 2), (0, 3), (64, 8), (7, 13)] {
        let text = format!("Core(s) per socket: {cores}\nSocket(s): {sockets}\n");
        assert_eq!(parse_lscpu(&text).physical_cpus, Some(cores * sockets));
        assert_eq!(parse_lscpu(&text).sockets, Some(sockets));
    }
}

#[test]
fn physical_cpus_saturates() {
    let text = format!(
        "Core(s) per socket: {}\nSocket(s): {}\n",
        usize::MAX,
        2
    );
    assert_eq!(parse_lscpu(&text).physical_cpus, Some(usize::MAX));
    let text = format!("Core(s) per socket: {}\nSocket(s): 1\n", usize::MAX);
    assert_eq!(parse_lscpu(&text).physical_cpus, Some(usize::MAX));
}

#[test]
fn no_socket_counts_as_one() {
    let parsed = parse_lscpu("Core(s) per socket: 4\nSocket(s): 0\n");
    assert_eq!(parsed.sockets, Some(0));
    assert_eq!(parsed.physical_cpus, Some(4));
    let parsed = parse_lscpu("Socket(s): 0\nCore(s) per socket: 0\n");
    assert_eq!(parsed.physical_cpus, Some(0));
    let text = format!("Core(s) per socket: {}\nSocket(s): 0\n", usize::MAX);
    assert_eq!(parse_lscpu(&text).physical_cpus, Some(usize::MAX));
}

#[test]
fn one_socket_is_assumed_where_none_is_given() {
    let parsed = parse_lscpu("Core(s) per socket: 6\n");
    assert_eq!(parsed.physical_cpus, Some(6));
    assert_eq!(parsed.sockets, None);
    let parsed = parse_lscpu("Core(s) per socket: 6\nSocket(s): many\n");
    assert_eq!(parsed.physical_cpus, Some(6));
    assert_eq!(parsed.sockets, None);
}

#[test]
fn a_bad_field_leaves_the_others() {
    let parsed = parse_lscpu("Architecture: riscv64\nCPU(s): sixteen\nCPU max MHz: fast\n");
    assert_eq!(
        parsed,
        CpuInfo {
            model_name: None,
            architecture: Some("riscv64".into()),
            logical_cpus: None,
            physical_cpus: None,
            sockets: None,
            virtualization: None,
            max_speed: None,
        }
    );
}

#[test]
fn empty_output_gives_nothing() {
    assert_eq!(parse_lscpu(""), CpuInfo::default());
    assert_eq!(CpuInfo::default().model_name, None);
    assert_eq!(CpuInfo::default().max_speed, None);
}

#[test]
fn a_value_may_stand_on_the_next_line() {
    let parsed = parse_lscpu("Architecture:\n   aarch64\nCPU(s):\t8");
    assert_eq!(parsed.architecture.as_deref(), Some("aarch64"));
    assert_eq!(parsed.logical_cpus, Some(8));
}

#[test]
fn the_first_occurrence_of_a_key_counts() {
    let parsed = parse_lscpu("CPU(s): 4\nNUMA node0 CPU(s): 0-3\nCPU(s): 9\n");
    assert_eq!(parsed.logical_cpus, Some(4));
    let parsed = parse_lscpu("NUMA node0 CPU(s): 0-3\nCPU(s): 9\n");
    assert_eq!(parsed.logical_cpus, None);
}

#[test]
fn max_speed_is_in_hertz() {
    assert_eq!(parse_lscpu("CPU max MHz: 4500.0000").max_speed, Some(4_500_000_000));
    assert_eq!(parse_lscpu("CPU max MHz: 3.5").max_speed, Some(3_500_000));
    assert_eq!(parse_lscpu("CPU max MHz: 0.0000019").max_speed, Some(1));
    assert_eq!(parse_lscpu("CPU max MHz: 800").max_speed, Some(800_000_000));
    assert_eq!(parse_lscpu("CPU max MHz: .5").max_speed, Some(500_000));
    assert_eq!(parse_lscpu("CPU max MHz: 7.").max_speed, Some(7_000_000));
    assert_eq!(parse_lscpu("CPU max MHz: .").max_speed, None);
    assert_eq!(parse_lscpu("CPU max MHz: -3.0").max_speed, None);
    assert_eq!(parse_lscpu("CPU max MHz: 3.0 ").max_speed, None);
    assert_eq!(parse_lscpu("CPU max MHz: 1.2.3").max_speed, None);
    assert_eq!(
        parse_lscpu("CPU max MHz: 18446744073709.551615").max_speed,
        Some(u64::MAX)
    );
    assert_eq!(parse_lscpu("CPU max MHz: 18446744073709.551616").max_speed, None);
}

#[test]
fn output_must_be_utf8() {
    let info = cpu_info(LSCPU_OUTPUT.as_bytes().to_vec()).unwrap();
    assert_eq!(info, parse_lscpu(LSCPU_OUTPUT));
    assert_eq!(info.model_name.as_deref(), Some("UIM® Abacus™ 10"));
    assert_eq!(cpu_info(vec![0x41, 0xff, 0x42]), Err(SensorError::Encoding));
    assert_eq!(cpu_info(vec![0xc3]), Err(SensorError::Encoding));
    assert_eq!(cpu_info(Vec::new()), Ok(CpuInfo::default()));
    let model = cpu_info("Model name: Caf\u{e9}(R)".as_bytes().to_vec()).unwrap();
    assert_eq!(model.model_name.as_deref(), Some("Caf\u{e9}\u{ae}"));
}
