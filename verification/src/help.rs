//! The static help text: usage, option list, and two glossaries.
use vstd::prelude::*;

use crate::style::{painted, prefix_bold_underline, prefix_green_bold, style_glossary_header,
    style_section_header};

verus! {

/// The help text, given its four styled headers: a usage section, the
/// option list, and the memory-info and disk-info glossaries.
pub open spec fn help_text_spec(
    usage: Seq<char>,
    options: Seq<char>,
    mem_header: Seq<char>,
    disk_header: Seq<char>,
) -> Seq<char> {
    usage + "\n\twhereami [options]\n\nSimple program to get quick info on the current machine\n\n"@
        + options
        + "\n\t-d,\t--disk\t\t\tget hard-disk information\n\t-r,\t--release-notes\t\tget the OS release notes\n\t-m,\t--memory\t\tget ram and swap memory information\n\t-h,\t--help\t\t\tdisplay this help\n\n"@
        + mem_header
        + ":\n\tTotal\t\t\t\tThe total size of RAM\n\tUsed\t\t\t\tThe total RAM in use\n\tAvailable\t\t\tThe total available memory\n\tFree\t\t\t\tThe total free memory\n\tTotal swap\t\t\tThe total swap memory\n\tFree swap\t\t\tThe total unused swap memory\n\tBuffer\t\t\t\tThe total buffer memory\n\tCache\t\t\t\tThe total cache memory\n\n"@
        + disk_header
        + ":\n\tTotal\t\t\t\tThe total size of the disk\n\tFree\t\t\t\tTotal available disk space\n"@
}

/// The help text `out` is correct for some admissible styling of its
/// four constant headers. The body between and after the headers is
/// fixed, whatever the styling decision.
pub open spec fn help_note_rel(out: Seq<char>) -> bool {
    exists|u: Seq<char>, o: Seq<char>, m: Seq<char>, d: Seq<char>|
        #![trigger help_text_spec(u, o, m, d)]
        painted(u, "Usage"@, prefix_green_bold()) && painted(o, "Options"@, prefix_green_bold())
            && painted(m, "AVAILABLE INFO IN MEMORY INFO"@, prefix_bold_underline()) && painted(
            d,
            "AVAILABLE INFO IN DISK INFO"@,
            prefix_bold_underline(),
        ) && out == help_text_spec(u, o, m, d)
}

/// Renders the help text. Its content depends on no input: apart from
/// the one-time styling decision, every call yields the same text.
pub fn help_note() -> (r: String)
    ensures
        help_note_rel(r@),
{
    let usage = style_section_header("Usage");
    let options = style_section_header("Options");
    let mem_header = style_glossary_header("AVAILABLE INFO IN MEMORY INFO");
    let disk_header = style_glossary_header("AVAILABLE INFO IN DISK INFO");
    let mut s = String::new();
    s.append(usage.as_str());
    s.append(
        "\n\twhereami [options]\n\nSimple program to get quick info on the current machine\n\n",
    );
    s.append(options.as_str());
    s.append(
        "\n\t-d,\t--disk\t\t\tget hard-disk information\n\t-r,\t--release-notes\t\tget the OS release notes\n\t-m,\t--memory\t\tget ram and swap memory information\n\t-h,\t--help\t\t\tdisplay this help\n\n",
    );
    s.append(mem_header.as_str());
    s.append(
        ":\n\tTotal\t\t\t\tThe total size of RAM\n\tUsed\t\t\t\tThe total RAM in use\n\tAvailable\t\t\tThe total available memory\n\tFree\t\t\t\tThe total free memory\n\tTotal swap\t\t\tThe total swap memory\n\tFree swap\t\t\tThe total unused swap memory\n\tBuffer\t\t\t\tThe total buffer memory\n\tCache\t\t\t\tThe total cache memory\n\n",
    );
    s.append(disk_header.as_str());
    s.append(
        ":\n\tTotal\t\t\t\tThe total size of the disk\n\tFree\t\t\t\tTotal available disk space\n",
    );
    proof {
        assert(s@ =~= help_text_spec(usage@, options@, mem_header@, disk_header@));
    }
    s
}

} // verus!
