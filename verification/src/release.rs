//! Rendering of OS release metadata.
//!
//! A `ReleaseInfo` carries the optional fields of the host's release
//! descriptor as plain values; reading the descriptor itself happens
//! outside the library. Absent fields produce no output line at all.
use vstd::prelude::*;

use crate::style::{blue_opt, get_string_blue};

verus! {

/// The optional fields of an OS release descriptor.
pub struct ReleaseInfo {
    pub id: Option<String>,
    pub id_like: Option<String>,
    pub pretty_name: Option<String>,
    pub version: Option<String>,
    pub version_id: Option<String>,
    pub version_codename: Option<String>,
    pub ansi_color: Option<String>,
    pub logo: Option<String>,
    pub cpe_name: Option<String>,
    pub build_id: Option<String>,
    pub variant: Option<String>,
    pub variant_id: Option<String>,
    pub home_url: Option<String>,
    pub documentation_url: Option<String>,
    pub support_url: Option<String>,
    pub bug_report_url: Option<String>,
    pub privacy_policy_url: Option<String>,
}

/// One labeled line of the release-notes block: a present value gets a
/// tab-separated line of its own, an absent one produces nothing.
pub open spec fn release_line(name: Seq<char>, info: Option<Seq<char>>) -> Seq<char> {
    match info {
        Option::Some(i) => "\t"@ + name + "\t"@ + i + "\n"@,
        Option::None => Seq::empty(),
    }
}

/// What `get_ansi_color` returns: a present color code becomes a block
/// of seven full-block characters wrapped in that code's ANSI escape.
pub open spec fn ansi_color_spec(ansi: Option<Seq<char>>) -> Option<Seq<char>> {
    match ansi {
        Option::Some(a) => Option::Some(
            "\u{1b}["@ + a + "m\u{2588}\u{2588}\u{2588}\u{2588}\u{2588}\u{2588}\u{2588}\u{1b}[0m"@,
        ),
        Option::None => Option::None,
    }
}

/// Renders a release descriptor's ANSI color code as a colored swatch
/// rather than literal text; an absent code stays absent.
pub fn get_ansi_color(ansi: Option<String>) -> (r: Option<String>)
    ensures
        r.deep_view() == ansi_color_spec(ansi.deep_view()),
{
    match &ansi {
        Option::Some(a) => {
            let mut s = "\u{1b}[".to_owned();
            s.append(a.as_str());
            s.append("m\u{2588}\u{2588}\u{2588}\u{2588}\u{2588}\u{2588}\u{2588}\u{1b}[0m");
            proof {
                assert(s@ =~= ansi_color_spec(ansi.deep_view())->0);
            }
            Option::Some(s)
        },
        Option::None => Option::None,
    }
}

/// Renders one labeled release-notes line; absent values are omitted
/// entirely, with no placeholder.
pub fn get_release_info(name: &str, info: Option<String>) -> (r: String)
    ensures
        r@ == release_line(name@, info.deep_view()),
{
    match &info {
        Option::Some(i) => {
            let mut s = "\t".to_owned();
            s.append(name);
            s.append("\t");
            s.append(i.as_str());
            s.append("\n");
            proof {
                assert(s@ =~= release_line(name@, info.deep_view()));
            }
            s
        },
        Option::None => String::new(),
    }
}

/// The release-notes block, given the descriptor's fields with the
/// ANSI swatch and the styled URL fields already rendered.
pub open spec fn note_text_spec(
    id: Option<Seq<char>>,
    id_like: Option<Seq<char>>,
    pretty_name: Option<Seq<char>>,
    version: Option<Seq<char>>,
    version_id: Option<Seq<char>>,
    version_codename: Option<Seq<char>>,
    ansi_block: Option<Seq<char>>,
    logo: Option<Seq<char>>,
    cpe_name: Option<Seq<char>>,
    build_id: Option<Seq<char>>,
    variant: Option<Seq<char>>,
    variant_id: Option<Seq<char>>,
    home: Option<Seq<char>>,
    documentation: Option<Seq<char>>,
    support: Option<Seq<char>>,
    bug_report: Option<Seq<char>>,
    privacy_policy: Option<Seq<char>>,
) -> Seq<char> {
    "Release notes:\n"@ + release_line("Distribution:"@, Option::Some(Seq::empty()))
        + release_line("\tID:\t"@, id) + release_line("\tID type:"@, id_like) + release_line(
        "\tName:\t"@,
        pretty_name,
    ) + release_line("\tVersion:"@, version) + release_line("\tVersion ID:"@, version_id)
        + release_line("\tVersion Code:"@, version_codename) + release_line(
        "\tANSI color:"@,
        ansi_block,
    ) + release_line("\tLogo:\t"@, logo) + release_line("\tCPE name:"@, cpe_name) + release_line(
        "\tBuild ID:"@,
        build_id,
    ) + release_line("\tVariant:"@, variant) + release_line("\tVariant ID:"@, variant_id)
        + release_line("URL:"@, Option::Some(Seq::empty())) + release_line("\tHome:\t"@, home)
        + release_line("\tDocumentation:"@, documentation) + release_line("\tSupport:"@, support)
        + release_line("\tBug report:"@, bug_report) + release_line(
        "\tPrivacy policy:"@,
        privacy_policy,
    )
}

/// The release-notes block `out` matches the descriptor `info`: the
/// five URL fields appear styled blue italic (or unchanged, when
/// coloring is off), everything else is rendered verbatim, and each
/// absent field is omitted.
pub open spec fn note_matches(
    info: ReleaseInfo,
    home: Option<Seq<char>>,
    documentation: Option<Seq<char>>,
    support: Option<Seq<char>>,
    bug_report: Option<Seq<char>>,
    privacy_policy: Option<Seq<char>>,
    out: Seq<char>,
) -> bool {
    &&& blue_opt(home, info.home_url.deep_view())
    &&& blue_opt(documentation, info.documentation_url.deep_view())
    &&& blue_opt(support, info.support_url.deep_view())
    &&& blue_opt(bug_report, info.bug_report_url.deep_view())
    &&& blue_opt(privacy_policy, info.privacy_policy_url.deep_view())
    &&& out == note_text_spec(
        info.id.deep_view(),
        info.id_like.deep_view(),
        info.pretty_name.deep_view(),
        info.version.deep_view(),
        info.version_id.deep_view(),
        info.version_codename.deep_view(),
        ansi_color_spec(info.ansi_color.deep_view()),
        info.logo.deep_view(),
        info.cpe_name.deep_view(),
        info.build_id.deep_view(),
        info.variant.deep_view(),
        info.variant_id.deep_view(),
        home,
        documentation,
        support,
        bug_report,
        privacy_policy,
    )
}

/// The release-notes block `out` is a correct rendering of `info`, for
/// some admissible styling of the URL fields.
pub open spec fn release_note_rel(info: ReleaseInfo, out: Seq<char>) -> bool {
    exists|h: Option<Seq<char>>, d: Option<Seq<char>>, s: Option<Seq<char>>, b: Option<
        Seq<char>,
    >, p: Option<Seq<char>>| #[trigger] note_matches(info, h, d, s, b, p, out)
}

fn clone_opt(o: &Option<String>) -> (r: Option<String>)
    ensures
        r.deep_view() == o.deep_view(),
{
    match o {
        Option::Some(s) => Option::Some(s.clone()),
        Option::None => Option::None,
    }
}

/// Renders the full release-notes block from a descriptor: a header,
/// the distribution fields in a fixed order, then the URL fields in a
/// highlighted style, each absent field skipped entirely.
pub fn get_release_note(info: &ReleaseInfo) -> (r: String)
    ensures
        release_note_rel(*info, r@),
{
    let home = get_string_blue(clone_opt(&info.home_url));
    let documentation = get_string_blue(clone_opt(&info.documentation_url));
    let support = get_string_blue(clone_opt(&info.support_url));
    let bug_report = get_string_blue(clone_opt(&info.bug_report_url));
    let privacy_policy = get_string_blue(clone_opt(&info.privacy_policy_url));
    let ansi_block = get_ansi_color(clone_opt(&info.ansi_color));

    let mut out = "Release notes:\n".to_owned();
    out.append(get_release_info("Distribution:", Option::Some(String::new())).as_str());
    out.append(get_release_info("\tID:\t", clone_opt(&info.id)).as_str());
    out.append(get_release_info("\tID type:", clone_opt(&info.id_like)).as_str());
    out.append(get_release_info("\tName:\t", clone_opt(&info.pretty_name)).as_str());
    out.append(get_release_info("\tVersion:", clone_opt(&info.version)).as_str());
    out.append(get_release_info("\tVersion ID:", clone_opt(&info.version_id)).as_str());
    out.append(get_release_info("\tVersion Code:", clone_opt(&info.version_codename)).as_str());
    out.append(get_release_info("\tANSI color:", ansi_block).as_str());
    out.append(get_release_info("\tLogo:\t", clone_opt(&info.logo)).as_str());
    out.append(get_release_info("\tCPE name:", clone_opt(&info.cpe_name)).as_str());
    out.append(get_release_info("\tBuild ID:", clone_opt(&info.build_id)).as_str());
    out.append(get_release_info("\tVariant:", clone_opt(&info.variant)).as_str());
    out.append(get_release_info("\tVariant ID:", clone_opt(&info.variant_id)).as_str());
    out.append(get_release_info("URL:", Option::Some(String::new())).as_str());
    out.append(get_release_info("\tHome:\t", home).as_str());
    out.append(get_release_info("\tDocumentation:", documentation).as_str());
    out.append(get_release_info("\tSupport:", support).as_str());
    out.append(get_release_info("\tBug report:", bug_report).as_str());
    out.append(get_release_info("\tPrivacy policy:", privacy_policy).as_str());

    proof {
        assert(out@ =~= note_text_spec(
            info.id.deep_view(),
            info.id_like.deep_view(),
            info.pretty_name.deep_view(),
            info.version.deep_view(),
            info.version_id.deep_view(),
            info.version_codename.deep_view(),
            ansi_color_spec(info.ansi_color.deep_view()),
            info.logo.deep_view(),
            info.cpe_name.deep_view(),
            info.build_id.deep_view(),
            info.variant.deep_view(),
            info.variant_id.deep_view(),
            home.deep_view(),
            documentation.deep_view(),
            support.deep_view(),
            bug_report.deep_view(),
            privacy_policy.deep_view(),
        ));
        assert(note_matches(
            *info,
            home.deep_view(),
            documentation.deep_view(),
            support.deep_view(),
            bug_report.deep_view(),
            privacy_policy.deep_view(),
            out@,
        ));
    }
    out
}

/// The single-line stand-in for hosts whose release descriptor cannot
/// be queried: release notes are reported as unavailable, not as an
/// error.
pub fn release_note_unavailable() -> (r: String)
    ensures
        r@ == "Release notes:\t\t\tNo notes"@,
{
    "Release notes:\t\t\tNo notes".to_owned()
}

/// An absent descriptor field is omitted from the release-notes block
/// entirely: its line renders as the empty sequence, never as a blank
/// or placeholder line.
pub proof fn lemma_absent_field_omitted(name: Seq<char>)
    ensures
        release_line(name, Option::None) == Seq::<char>::empty(),
        forall|i: Seq<char>| (#[trigger] release_line(name, Option::Some(i))).len() > 0,
{
    assert forall|i: Seq<char>| (#[trigger] release_line(name, Option::Some(i))).len() > 0 by {
        reveal_strlit("\t");
        reveal_strlit("\n");
    }
}

} // verus!
