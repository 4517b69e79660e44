//! Flag handling: deduplication of the argument list and dispatch of
//! each recognized flag to its output block.
//!
//! Arguments are deduplicated first (keeping the first occurrence of
//! each, in order), then processed left to right. Every recognized
//! flag appends its block; the first unrecognized argument appends an
//! error message plus the help text and stops all further processing.
use vstd::prelude::*;

use itertools::Itertools;

verus! {

/// The argument list with every repeated element dropped: only the
/// first occurrence of each element is kept, in its original position.
pub open spec fn dedup_seq(s: Seq<Seq<char>>) -> Seq<Seq<char>>
    decreases s.len(),
{
    if s.len() == 0 {
        Seq::empty()
    } else {
        let pre = dedup_seq(s.drop_last());
        if s.drop_last().contains(s.last()) {
            pre
        } else {
            pre.push(s.last())
        }
    }
}

/// Relies on itertools' `Itertools::unique`: it yields the first
/// occurrence of each element, in order, and drops later duplicates.
#[verifier::external_body]
fn dedup_args(args: Vec<String>) -> (r: Vec<String>)
    ensures
        r.deep_view() == dedup_seq(args.deep_view()),
{
    args.into_iter().unique().collect()
}

/// The short or long disk flag.
pub open spec fn is_disk_flag(a: Seq<char>) -> bool {
    a == "-d"@ || a == "--disk"@
}

/// The short or long release-notes flag.
pub open spec fn is_release_flag(a: Seq<char>) -> bool {
    a == "-r"@ || a == "--release-notes"@
}

/// The short or long memory flag.
pub open spec fn is_memory_flag(a: Seq<char>) -> bool {
    a == "-m"@ || a == "--memory"@
}

/// The short or long help flag.
pub open spec fn is_help_flag(a: Seq<char>) -> bool {
    a == "-h"@ || a == "--help"@
}

/// Any of the four recognized flags.
pub open spec fn is_recognized(a: Seq<char>) -> bool {
    is_disk_flag(a) || is_release_flag(a) || is_memory_flag(a) || is_help_flag(a)
}

/// The message printed for an unrecognized argument, before the help
/// text.
pub open spec fn invalid_option_spec(a: Seq<char>) -> Seq<char> {
    "Invalid option '"@ + a + "'\nrunning 'whereami --help' for more information\n\n"@
}

/// The concatenated output of dispatching `args` in order: each
/// recognized flag contributes its block (the memory block followed by
/// a newline), and the first unrecognized argument contributes the
/// invalid-option message plus the help text and ends the output; any
/// arguments after it are never reached.
pub open spec fn dispatch_spec(
    args: Seq<Seq<char>>,
    disk: Seq<char>,
    notes: Seq<char>,
    mem: Seq<char>,
    help: Seq<char>,
) -> Seq<char>
    decreases args.len(),
{
    if args.len() == 0 {
        Seq::empty()
    } else {
        let a = args[0];
        let rest = dispatch_spec(args.subrange(1, args.len() as int), disk, notes, mem, help);
        if is_disk_flag(a) {
            disk + rest
        } else if is_release_flag(a) {
            notes + rest
        } else if is_memory_flag(a) {
            mem + "\n"@ + rest
        } else if is_help_flag(a) {
            help + rest
        } else {
            invalid_option_spec(a) + help
        }
    }
}

fn flag_matches(arg: &String, flag: &str) -> (r: bool)
    ensures
        r == (arg@ == flag@),
{
    let f: String = flag.to_owned();
    *arg == f
}

fn dispatch_from(
    args: &Vec<String>,
    i: usize,
    disk_block: &str,
    release_block: &str,
    mem_block: &str,
    help_text: &str,
) -> (r: String)
    requires
        i <= args.len(),
    ensures
        r@ == dispatch_spec(
            args.deep_view().skip(i as int),
            disk_block@,
            release_block@,
            mem_block@,
            help_text@,
        ),
    decreases args.len() - i,
{
    if i == args.len() {
        proof {
            assert(args.deep_view().skip(i as int) =~= Seq::<Seq<char>>::empty());
        }
        String::new()
    } else {
        let arg = &args[i];
        proof {
            let dv = args.deep_view();
            assert(dv.skip(i as int)[0] == arg@);
            assert(dv.skip(i as int).subrange(1, dv.skip(i as int).len() as int) =~= dv.skip(
                i as int + 1,
            ));
        }
        if flag_matches(arg, "-d") || flag_matches(arg, "--disk") {
            let mut s = disk_block.to_owned();
            let rest = dispatch_from(args, i + 1, disk_block, release_block, mem_block, help_text);
            s.append(rest.as_str());
            s
        } else if flag_matches(arg, "-r") || flag_matches(arg, "--release-notes") {
            let mut s = release_block.to_owned();
            let rest = dispatch_from(args, i + 1, disk_block, release_block, mem_block, help_text);
            s.append(rest.as_str());
            s
        } else if flag_matches(arg, "-m") || flag_matches(arg, "--memory") {
            let mut s = mem_block.to_owned();
            s.append("\n");
            let rest = dispatch_from(args, i + 1, disk_block, release_block, mem_block, help_text);
            s.append(rest.as_str());
            proof {
                assert(s@ =~= dispatch_spec(
                    args.deep_view().skip(i as int),
                    disk_block@,
                    release_block@,
                    mem_block@,
                    help_text@,
                ));
            }
            s
        } else if flag_matches(arg, "-h") || flag_matches(arg, "--help") {
            let mut s = help_text.to_owned();
            let rest = dispatch_from(args, i + 1, disk_block, release_block, mem_block, help_text);
            s.append(rest.as_str());
            s
        } else {
            let mut s = "Invalid option '".to_owned();
            s.append(arg.as_str());
            s.append("'\nrunning 'whereami --help' for more information\n\n");
            s.append(help_text);
            proof {
                assert(s@ =~= dispatch_spec(
                    args.deep_view().skip(i as int),
                    disk_block@,
                    release_block@,
                    mem_block@,
                    help_text@,
                ));
            }
            s
        }
    }
}

/// Deduplicates the argument list, then dispatches each remaining
/// argument in order to its output block.
pub fn dispatch(
    args: Vec<String>,
    disk_block: &str,
    release_block: &str,
    mem_block: &str,
    help_text: &str,
) -> (r: String)
    ensures
        r@ == dispatch_spec(
            dedup_seq(args.deep_view()),
            disk_block@,
            release_block@,
            mem_block@,
            help_text@,
        ),
{
    let deduped = dedup_args(args);
    let r = dispatch_from(&deduped, 0, disk_block, release_block, mem_block, help_text);
    proof {
        assert(deduped.deep_view().skip(0) =~= deduped.deep_view());
    }
    r
}

/// The four recognized flags are pairwise distinct tokens: a help flag
/// is never also a disk, release-notes or memory flag.
pub proof fn lemma_help_flag_exclusive(a: Seq<char>)
    requires
        is_help_flag(a),
    ensures
        !is_disk_flag(a),
        !is_release_flag(a),
        !is_memory_flag(a),
{
    reveal_strlit("-d");
    reveal_strlit("--disk");
    reveal_strlit("-r");
    reveal_strlit("--release-notes");
    reveal_strlit("-m");
    reveal_strlit("--memory");
    reveal_strlit("-h");
    reveal_strlit("--help");
    assert("-h"@[1] == 'h' && "-d"@[1] == 'd' && "-r"@[1] == 'r' && "-m"@[1] == 'm');
    assert("--help"@[2] == 'h' && "--disk"@[2] == 'd');
    assert("-h"@.len() == 2 && "--help"@.len() == 6 && "--disk"@.len() == 6 && "-d"@.len() == 2);
    assert("--release-notes"@.len() == 15 && "--memory"@.len() == 8);
}

/// The help flag's output does not depend on where in the invocation
/// it stands: among any recognized flags, a help flag contributes
/// exactly the help text, and the rest of the output is unchanged.
pub proof fn lemma_help_position_independent(
    pre: Seq<Seq<char>>,
    post: Seq<Seq<char>>,
    flag: Seq<char>,
    disk: Seq<char>,
    notes: Seq<char>,
    mem: Seq<char>,
    help: Seq<char>,
)
    requires
        is_help_flag(flag),
        forall|k: int| 0 <= k < pre.len() ==> is_recognized(#[trigger] pre[k]),
    ensures
        dispatch_spec(pre + seq![flag] + post, disk, notes, mem, help) == dispatch_spec(
            pre,
            disk,
            notes,
            mem,
            help,
        ) + help + dispatch_spec(post, disk, notes, mem, help),
    decreases pre.len(),
{
    let whole = pre + seq![flag] + post;
    lemma_help_flag_exclusive(flag);
    if pre.len() == 0 {
        assert(whole[0] == flag);
        assert(whole.subrange(1, whole.len() as int) =~= post);
        assert(dispatch_spec(whole, disk, notes, mem, help) == help + dispatch_spec(
            post,
            disk,
            notes,
            mem,
            help,
        ));
        assert(dispatch_spec(whole, disk, notes, mem, help) =~= dispatch_spec(
            pre,
            disk,
            notes,
            mem,
            help,
        ) + help + dispatch_spec(post, disk, notes, mem, help));
    } else {
        let tail = pre.subrange(1, pre.len() as int);
        assert(forall|k: int| 0 <= k < tail.len() ==> is_recognized(#[trigger] tail[k]));
        lemma_help_position_independent(tail, post, flag, disk, notes, mem, help);
        assert(whole[0] == pre[0]);
        assert(whole.subrange(1, whole.len() as int) =~= tail + seq![flag] + post);
        assert(is_recognized(pre[0]));
        assert(dispatch_spec(whole, disk, notes, mem, help) =~= dispatch_spec(
            pre,
            disk,
            notes,
            mem,
            help,
        ) + help + dispatch_spec(post, disk, notes, mem, help));
    }
}

} // verus!
