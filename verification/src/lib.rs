//! Library behind a small command-line utility that reports basic
//! machine information: architecture, boot time, CPU, hostname, disk
//! capacity, memory and swap usage, and OS release metadata.
//!
//! Everything here is pure formatting and flag dispatch over plain
//! values; the OS queries themselves happen outside the library.
use vstd::prelude::*;

pub mod args;
pub mod help;
pub mod numfmt;
pub mod release;
pub mod report;
pub mod style;
pub mod units;

use crate::args::{dedup_seq, dispatch, dispatch_spec};
use crate::help::help_note_rel;
use crate::help::help_note;
use crate::report::{disk_info_spec, full_report, get_disk_info, get_mem_info, mem_info_spec,
    report_matches, DiskInfo, MemInfo};

verus! {

/// The whole run's output, from the gathered machine values and the
/// command-line arguments (the program name already removed): with no
/// arguments, the full report followed by a newline; otherwise one
/// output block per recognized flag after deduplication, stopping at
/// the first unrecognized argument with an error message plus the help
/// text.
pub fn render_output(
    args: Vec<String>,
    arch: &str,
    tv_sec: u64,
    tv_usec: u64,
    cpu_num: u64,
    cpu_speed: u64,
    hostname: &str,
    disk: &DiskInfo,
    os_type: &str,
    os_release: &str,
    release_notes: &str,
    mem: &MemInfo,
) -> (r: String)
    requires
        tv_usec < 1000000,
        mem.avail <= mem.total,
    ensures
        args@.len() == 0 ==> exists|body: Seq<char>|
            #[trigger] report_matches(
                arch@,
                tv_sec as nat,
                tv_usec as nat,
                cpu_num as nat,
                cpu_speed as nat,
                hostname@,
                *disk,
                os_type@,
                os_release@,
                release_notes@,
                *mem,
                body,
            ) && r@ == body + "\n"@,
        args@.len() > 0 ==> exists|help: Seq<char>|
            #[trigger] help_note_rel(help) && r@ == dispatch_spec(
                dedup_seq(args.deep_view()),
                disk_info_spec(*disk),
                release_notes@,
                mem_info_spec(*mem),
                help,
            ),
{
    if args.len() == 0 {
        let mut s = full_report(
            arch,
            tv_sec,
            tv_usec,
            cpu_num,
            cpu_speed,
            hostname,
            disk,
            os_type,
            os_release,
            release_notes,
            mem,
        );
        s.append("\n");
        s
    } else {
        let disk_block = get_disk_info(disk);
        let mem_block = get_mem_info(mem);
        let help_text = help_note();
        let ghost h = help_text@;
        let r = dispatch(
            args,
            disk_block.as_str(),
            release_notes,
            mem_block.as_str(),
            help_text.as_str(),
        );
        proof {
            assert(help_note_rel(h));
        }
        r
    }
}

} // verus!
