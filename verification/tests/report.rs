use whereami::render_output;
use whereami::report::{get_disk_info, get_mem_info, DiskInfo, MemInfo};

fn sample_mem() -> MemInfo {
    MemInfo {
        total: 2048,
        free: 512,
        avail: 1024,
        buffers: 100,
        cached: 200,
        swap_total: 1024,
        swap_free: 1024,
    }
}

fn sample_disk() -> DiskInfo {
    DiskInfo {
        total: 2048,
        free: 1024,
    }
}

#[test]
fn memory_block_layout() {
    assert_eq!(
        get_mem_info(&sample_mem()),
        "Memory info:\n\tMemory:\n\t\tTotal:\t\t2.00\tMB\n\t\tUsed:\t\t1.00\tMB\n\t\tAvailable:\t1.00\tMB\n\t\tFree:\t\t512\tKB\n\tSwap:\n\t\tTotal swap:\t1.00\tMB\n\t\tFree swap:\t1.00\tMB\n\n\tBuffer:\t\t\t100\tKB\n\tCache:\t\t\t200\tKB"
    );
}

#[test]
fn disk_block_layout() {
    assert_eq!(
        get_disk_info(&sample_disk()),
        "Disk info:\n\tTotal:\t\t\t2.00\tMB\n\tFree:\t\t\t1.00\tMB\n"
    );
}

fn sample_report() -> String {
    render_output(
        Vec::new(),
        "x86_64",
        5,
        500000,
        8,
        3000,
        "myhost",
        &sample_disk(),
        "Linux",
        "6.1",
        "NOTES\n",
        &sample_mem(),
    )
}

#[test]
fn full_report_blocks_in_order() {
    let out = sample_report();
    let labels = [
        "Architecture:",
        "Boot time:",
        "CPU count:",
        "CPU speed:",
        "Host:",
        "Disk info:",
        "OS type:",
        "Release version:",
        "NOTES",
        "Memory info:",
    ];
    let mut last: usize = 0;
    for label in labels {
        let pos = out[last..]
            .find(label)
            .unwrap_or_else(|| panic!("missing or out of order: {label}"));
        last += pos + label.len();
    }
}

#[test]
fn full_report_contents() {
    let out = sample_report();
    assert!(out.contains("x86_64"));
    assert!(out.contains("myhost"));
    assert!(out.contains(
        "Boot time:\t\t\t5.500000 seconds\nCPU count:\t\t\t8\nCPU speed:\t\t\t3000 MHz\nHost:"
    ));
    assert!(out.contains("Disk info:\n\tTotal:\t\t\t2.00\tMB\n\tFree:\t\t\t1.00\tMB\n"));
    assert!(out.contains("OS type:\t\t\tLinux\nRelease version:\t\t6.1\nNOTES\nMemory info:"));
    assert!(out.ends_with("\tCache:\t\t\t200\tKB\n"));
}

#[test]
fn single_flag_prints_one_block() {
    let disk_out = render_output(
        vec!["-d".to_string()],
        "x86_64",
        5,
        500000,
        8,
        3000,
        "myhost",
        &sample_disk(),
        "Linux",
        "6.1",
        "NOTES\n",
        &sample_mem(),
    );
    assert_eq!(disk_out, get_disk_info(&sample_disk()));

    let mem_out = render_output(
        vec!["-m".to_string()],
        "x86_64",
        5,
        500000,
        8,
        3000,
        "myhost",
        &sample_disk(),
        "Linux",
        "6.1",
        "NOTES\n",
        &sample_mem(),
    );
    assert_eq!(mem_out, format!("{}\n", get_mem_info(&sample_mem())));

    let notes_out = render_output(
        vec!["-r".to_string()],
        "x86_64",
        5,
        500000,
        8,
        3000,
        "myhost",
        &sample_disk(),
        "Linux",
        "6.1",
        "NOTES\n",
        &sample_mem(),
    );
    assert_eq!(notes_out, "NOTES\n");
}
