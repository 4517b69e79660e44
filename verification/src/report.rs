//! The memory block, the disk block, and the full machine report.
use vstd::prelude::*;

use crate::numfmt::dec_digits;
use crate::style::{painted, prefix_bright_white, prefix_bright_yellow, style_arch, style_host};
use crate::units::{data_unit_spec, get_data_unit, get_timeval, timeval_spec};

verus! {

/// Memory and swap counters, in raw bytes as the host reports them.
/// The used amount is not stored: it is derived as total minus
/// available at render time.
pub struct MemInfo {
    pub total: u64,
    pub free: u64,
    pub avail: u64,
    pub buffers: u64,
    pub cached: u64,
    pub swap_total: u64,
    pub swap_free: u64,
}

/// Total and free capacity of the primary disk, in raw bytes.
pub struct DiskInfo {
    pub total: u64,
    pub free: u64,
}

/// The memory-info block: RAM counters (with used derived as total
/// minus available), swap counters, then buffer and cache sizes, each
/// scaled to a human-readable unit.
pub open spec fn mem_info_spec(m: MemInfo) -> Seq<char>
    recommends
        m.avail <= m.total,
{
    "Memory info:\n\tMemory:\n\t\tTotal:\t\t"@ + data_unit_spec(m.total as nat)
        + "\n\t\tUsed:\t\t"@ + data_unit_spec((m.total - m.avail) as nat) + "\n\t\tAvailable:\t"@
        + data_unit_spec(m.avail as nat) + "\n\t\tFree:\t\t"@ + data_unit_spec(m.free as nat)
        + "\n\tSwap:\n\t\tTotal swap:\t"@ + data_unit_spec(m.swap_total as nat)
        + "\n\t\tFree swap:\t"@ + data_unit_spec(m.swap_free as nat) + "\n\n\tBuffer:\t\t\t"@
        + data_unit_spec(m.buffers as nat) + "\n\tCache:\t\t\t"@ + data_unit_spec(m.cached as nat)
}

/// Renders the memory-info block.
pub fn get_mem_info(mem_info: &MemInfo) -> (r: String)
    requires
        mem_info.avail <= mem_info.total,
    ensures
        r@ == mem_info_spec(*mem_info),
{
    let mut s = "Memory info:\n\tMemory:\n\t\tTotal:\t\t".to_owned();
    s.append(get_data_unit(mem_info.total).as_str());
    s.append("\n\t\tUsed:\t\t");
    s.append(get_data_unit(mem_info.total - mem_info.avail).as_str());
    s.append("\n\t\tAvailable:\t");
    s.append(get_data_unit(mem_info.avail).as_str());
    s.append("\n\t\tFree:\t\t");
    s.append(get_data_unit(mem_info.free).as_str());
    s.append("\n\tSwap:\n\t\tTotal swap:\t");
    s.append(get_data_unit(mem_info.swap_total).as_str());
    s.append("\n\t\tFree swap:\t");
    s.append(get_data_unit(mem_info.swap_free).as_str());
    s.append("\n\n\tBuffer:\t\t\t");
    s.append(get_data_unit(mem_info.buffers).as_str());
    s.append("\n\tCache:\t\t\t");
    s.append(get_data_unit(mem_info.cached).as_str());
    proof {
        assert(s@ =~= mem_info_spec(*mem_info));
    }
    s
}

/// The disk-info block: total and free capacity, scaled, ending with a
/// newline.
pub open spec fn disk_info_spec(d: DiskInfo) -> Seq<char> {
    "Disk info:\n\tTotal:\t\t\t"@ + data_unit_spec(d.total as nat) + "\n\tFree:\t\t\t"@
        + data_unit_spec(d.free as nat) + "\n"@
}

/// Renders the disk-info block.
pub fn get_disk_info(disk_info: &DiskInfo) -> (r: String)
    ensures
        r@ == disk_info_spec(*disk_info),
{
    let mut s = "Disk info:\n\tTotal:\t\t\t".to_owned();
    s.append(get_data_unit(disk_info.total).as_str());
    s.append("\n\tFree:\t\t\t");
    s.append(get_data_unit(disk_info.free).as_str());
    s.append("\n");
    proof {
        assert(s@ =~= disk_info_spec(*disk_info));
    }
    s
}

/// The full report, given the styled architecture and hostname and the
/// already-rendered release-notes block: architecture, boot time, CPU
/// count, CPU speed, hostname, the disk block, OS type, OS release
/// version, the release notes, and the memory block, in that order.
pub open spec fn report_spec(
    arch_styled: Seq<char>,
    tv_sec: nat,
    tv_usec: nat,
    cpu_num: nat,
    cpu_speed: nat,
    host_styled: Seq<char>,
    disk: DiskInfo,
    os_type: Seq<char>,
    os_release: Seq<char>,
    release_notes: Seq<char>,
    mem: MemInfo,
) -> Seq<char> {
    "Architecture:\t\t\t"@ + arch_styled + "\nBoot time:\t\t\t"@ + timeval_spec(tv_sec, tv_usec)
        + " seconds\nCPU count:\t\t\t"@ + dec_digits(cpu_num) + "\nCPU speed:\t\t\t"@ + dec_digits(
        cpu_speed,
    ) + " MHz\nHost:\t\t\t\t"@ + host_styled + "\n"@ + disk_info_spec(disk) + "OS type:\t\t\t"@
        + os_type + "\nRelease version:\t\t"@ + os_release + "\n"@ + release_notes + mem_info_spec(
        mem,
    )
}

/// The full report `out` matches the gathered values, for some
/// admissible styling of the architecture and hostname headers.
pub open spec fn report_matches(
    arch: Seq<char>,
    tv_sec: nat,
    tv_usec: nat,
    cpu_num: nat,
    cpu_speed: nat,
    host: Seq<char>,
    disk: DiskInfo,
    os_type: Seq<char>,
    os_release: Seq<char>,
    release_notes: Seq<char>,
    mem: MemInfo,
    out: Seq<char>,
) -> bool {
    exists|a: Seq<char>, h: Seq<char>|
        #![trigger report_spec(a, tv_sec, tv_usec, cpu_num, cpu_speed, h, disk, os_type, os_release, release_notes, mem)]
        painted(a, arch, prefix_bright_yellow()) && painted(h, host, prefix_bright_white()) && out
            == report_spec(
            a,
            tv_sec,
            tv_usec,
            cpu_num,
            cpu_speed,
            h,
            disk,
            os_type,
            os_release,
            release_notes,
            mem,
        )
}

/// The full report is exactly these ten parts, in this order: the
/// architecture line, the boot-time line, the CPU-count line, the
/// CPU-speed line, the hostname line, the disk block, the OS-type
/// line, the release-version line, the release-notes block, and the
/// memory block.
pub proof fn lemma_report_block_order(
    arch_styled: Seq<char>,
    tv_sec: nat,
    tv_usec: nat,
    cpu_num: nat,
    cpu_speed: nat,
    host_styled: Seq<char>,
    disk: DiskInfo,
    os_type: Seq<char>,
    os_release: Seq<char>,
    release_notes: Seq<char>,
    mem: MemInfo,
)
    ensures
        report_spec(
            arch_styled,
            tv_sec,
            tv_usec,
            cpu_num,
            cpu_speed,
            host_styled,
            disk,
            os_type,
            os_release,
            release_notes,
            mem,
        ) == ("Architecture:\t\t\t"@ + arch_styled + "\n"@) + ("Boot time:\t\t\t"@ + timeval_spec(
            tv_sec,
            tv_usec,
        ) + " seconds\n"@) + ("CPU count:\t\t\t"@ + dec_digits(cpu_num) + "\n"@) + (
        "CPU speed:\t\t\t"@ + dec_digits(cpu_speed) + " MHz\n"@) + ("Host:\t\t\t\t"@ + host_styled
            + "\n"@) + disk_info_spec(disk) + ("OS type:\t\t\t"@ + os_type + "\n"@) + (
        "Release version:\t\t"@ + os_release + "\n"@) + release_notes + mem_info_spec(mem),
{
    reveal_strlit("\nBoot time:\t\t\t");
    reveal_strlit("\n");
    reveal_strlit("Boot time:\t\t\t");
    reveal_strlit(" seconds\nCPU count:\t\t\t");
    reveal_strlit(" seconds\n");
    reveal_strlit("CPU count:\t\t\t");
    reveal_strlit("\nCPU speed:\t\t\t");
    reveal_strlit("CPU speed:\t\t\t");
    reveal_strlit(" MHz\nHost:\t\t\t\t");
    reveal_strlit(" MHz\n");
    reveal_strlit("Host:\t\t\t\t");
    reveal_strlit("OS type:\t\t\t");
    reveal_strlit("\nRelease version:\t\t");
    reveal_strlit("Release version:\t\t");
    assert(report_spec(
        arch_styled,
        tv_sec,
        tv_usec,
        cpu_num,
        cpu_speed,
        host_styled,
        disk,
        os_type,
        os_release,
        release_notes,
        mem,
    ) =~= ("Architecture:\t\t\t"@ + arch_styled + "\n"@) + ("Boot time:\t\t\t"@ + timeval_spec(
        tv_sec,
        tv_usec,
    ) + " seconds\n"@) + ("CPU count:\t\t\t"@ + dec_digits(cpu_num) + "\n"@) + ("CPU speed:\t\t\t"@
        + dec_digits(cpu_speed) + " MHz\n"@) + ("Host:\t\t\t\t"@ + host_styled + "\n"@)
        + disk_info_spec(disk) + ("OS type:\t\t\t"@ + os_type + "\n"@) + ("Release version:\t\t"@
        + os_release + "\n"@) + release_notes + mem_info_spec(mem));
}

/// Renders the full machine report from the gathered values and the
/// already-rendered release-notes block.
pub fn full_report(
    arch: &str,
    tv_sec: u64,
    tv_usec: u64,
    cpu_num: u64,
    cpu_speed: u64,
    hostname: &str,
    disk: &DiskInfo,
    os_type: &str,
    os_release: &str,
    release_notes: &str,
    mem: &MemInfo,
) -> (r: String)
    requires
        tv_usec < 1000000,
        mem.avail <= mem.total,
    ensures
        report_matches(
            arch@,
            tv_sec as nat,
            tv_usec as nat,
            cpu_num as nat,
            cpu_speed as nat,
            hostname@,
            *disk,
            os_type@,
            os_release@,
            release_notes@,
            *mem,
            r@,
        ),
{
    let arch_styled = style_arch(arch);
    let host_styled = style_host(hostname);
    let mut s = "Architecture:\t\t\t".to_owned();
    s.append(arch_styled.as_str());
    s.append("\nBoot time:\t\t\t");
    s.append(get_timeval(tv_sec, tv_usec).as_str());
    s.append(" seconds\nCPU count:\t\t\t");
    s.append(crate::numfmt::u64_to_dec(cpu_num).as_str());
    s.append("\nCPU speed:\t\t\t");
    s.append(crate::numfmt::u64_to_dec(cpu_speed).as_str());
    s.append(" MHz\nHost:\t\t\t\t");
    s.append(host_styled.as_str());
    s.append("\n");
    s.append(get_disk_info(disk).as_str());
    s.append("OS type:\t\t\t");
    s.append(os_type);
    s.append("\nRelease version:\t\t");
    s.append(os_release);
    s.append("\n");
    s.append(release_notes);
    s.append(get_mem_info(mem).as_str());
    proof {
        assert(s@ =~= report_spec(
            arch_styled@,
            tv_sec as nat,
            tv_usec as nat,
            cpu_num as nat,
            cpu_speed as nat,
            host_styled@,
            *disk,
            os_type@,
            os_release@,
            release_notes@,
            *mem,
        ));
    }
    s
}

} // verus!
