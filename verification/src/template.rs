//! The display template builder: turns a set of independent display
//! preferences into the template string and bounded/unbounded mode that the
//! terminal renderer is constructed from.
//!
//! The builder is pure and total.  Its output is pinned exactly by
//! [`spec_template`]: the chosen segments appear in a fixed left-to-right
//! order (elapsed timer, bar/spinner with percent, transferred amount, rate,
//! ETA), separated by single spaces, and when no segment preference at all is
//! requested a fixed maximal default template is produced instead.

use crate::decimal::dec_seq;
use crate::decimal::u32_decimal;
use vstd::prelude::*;

verus! {

/// The display preferences, one independent field per user-facing option.
///
/// The last four fields are accepted for compatibility only and are
/// intentionally inert: nothing in the library reads them, and
/// [`lemma_compat_fields_inert`] proves they cannot affect the produced
/// template or mode.
#[derive(Clone, Copy)]
pub struct DisplayPreferences {
    /// Estimated total transfer size; its presence selects a bounded bar.
    pub estimated_total: Option<u64>,
    /// Show the elapsed-time segment.
    pub show_elapsed: bool,
    /// Fixed progress-bar width; absent means "fill the available space".
    pub width: Option<u32>,
    /// Show the transferred-amount segment.
    pub show_transferred_amount: bool,
    /// Show the ETA segment.
    pub show_eta: bool,
    /// Show the transfer-rate segment.
    pub show_rate: bool,
    /// Count delimiter-separated lines instead of bytes.
    pub line_mode: bool,
    /// Accepted for compatibility; never read.
    pub buffer_size: Option<u64>,
    /// Accepted for compatibility; never read.
    pub buffer_percent: bool,
    /// Accepted for compatibility; never read.
    pub quiet: bool,
    /// Accepted for compatibility; never read.
    pub show_progress: bool,
}

/// What the renderer is constructed from: a template string and the choice
/// between a bounded bar and an unbounded spinner.
pub struct RenderSpec {
    /// The renderer template, as [`spec_template`] describes it.
    pub template: String,
    /// True exactly when an estimated total was supplied.
    pub bounded: bool,
}

/// The single space that separates adjacent template segments.
pub open spec fn space() -> Seq<char> {
    " "@
}

/// The elapsed-time segment.
pub open spec fn elapsed_segment() -> Seq<char> {
    "{elapsed_precise}"@
}

/// The bar/spinner segment with its percentage: width-qualified when a width
/// was requested, otherwise the "fill available space" variant.
pub open spec fn bar_segment(width: Option<u32>) -> Seq<char> {
    match width {
        Some(w) => "{bar:"@ + dec_seq(w as nat) + "} {percent}"@,
        None => "{wide_bar} {percent}"@,
    }
}

/// The ETA segment.
pub open spec fn eta_segment() -> Seq<char> {
    "{eta_precise}"@
}

/// The counting placeholder names (position, total, rate per second):
/// item-count names in line mode, byte-count names in byte mode.
pub open spec fn counter_names(line_mode: bool) -> (Seq<char>, Seq<char>, Seq<char>) {
    if line_mode {
        ("{pos}"@, "{len}"@, "{per_sec}"@)
    } else {
        ("{bytes}"@, "{total_bytes}"@, "{bytes_per_sec}"@)
    }
}

/// The transferred-amount segment: `position/total` when a total is known,
/// otherwise the position alone.
pub open spec fn amount_segment(
    names: (Seq<char>, Seq<char>, Seq<char>),
    have_total: bool,
) -> Seq<char> {
    if have_total {
        names.0 + "/"@ + names.1
    } else {
        names.0
    }
}

/// The fixed maximal default template, used when no segment preference at
/// all was requested: elapsed time, space-filling bar, percent,
/// position/total, rate and ETA.
pub open spec fn default_template_with(names: (Seq<char>, Seq<char>, Seq<char>)) -> Seq<char> {
    "{elapsed} {wide_bar} {percent} "@ + names.0 + "/"@ + names.1 + space() + names.2
        + " {eta}"@
}

/// The template assembled from explicit preferences: exactly the segments
/// whose preference is set, in the fixed order elapsed / bar / amount /
/// rate / ETA, space-separated.  The bar segment is always present.
pub open spec fn explicit_template_with(
    p: DisplayPreferences,
    names: (Seq<char>, Seq<char>, Seq<char>),
) -> Seq<char> {
    (if p.show_elapsed {
        elapsed_segment() + space()
    } else {
        Seq::<char>::empty()
    }) + bar_segment(p.width) + (if p.show_transferred_amount {
        space() + amount_segment(names, p.estimated_total.is_some())
    } else {
        Seq::<char>::empty()
    }) + (if p.show_rate {
        space() + names.2
    } else {
        Seq::<char>::empty()
    }) + (if p.show_eta {
        space() + eta_segment()
    } else {
        Seq::<char>::empty()
    })
}

/// The template for given counting placeholder names.  The name choice is
/// the only way `line_mode` can reach the result.
pub open spec fn template_with(
    p: DisplayPreferences,
    names: (Seq<char>, Seq<char>, Seq<char>),
) -> Seq<char> {
    if !(p.show_elapsed || p.show_transferred_amount || p.show_rate || p.show_eta) {
        default_template_with(names)
    } else {
        explicit_template_with(p, names)
    }
}

/// The template produced for the given preferences.
pub open spec fn spec_template(p: DisplayPreferences) -> Seq<char> {
    template_with(p, counter_names(p.line_mode))
}

/// Builds the renderer specification for the given preferences.
///
/// Never fails; the template is exactly [`spec_template`] and the mode is
/// bounded exactly when an estimated total is present, independently of all
/// other fields.
#[verifier::rlimit(100)]
pub fn build_render_spec(p: &DisplayPreferences) -> (r: RenderSpec)
    ensures
        r.template@ == spec_template(*p),
        r.bounded == p.estimated_total.is_some(),
{
    let pos_name: &'static str = if p.line_mode {
        "{pos}"
    } else {
        "{bytes}"
    };
    let total_name: &'static str = if p.line_mode {
        "{len}"
    } else {
        "{total_bytes}"
    };
    let rate_name: &'static str = if p.line_mode {
        "{per_sec}"
    } else {
        "{bytes_per_sec}"
    };
    let ghost names = counter_names(p.line_mode);
    let mut t = String::new();
    if !(p.show_elapsed || p.show_transferred_amount || p.show_rate || p.show_eta) {
        t.append("{elapsed} {wide_bar} {percent} ");
        t.append(pos_name);
        t.append("/");
        t.append(total_name);
        t.append(" ");
        t.append(rate_name);
        t.append(" {eta}");
        proof {
            assert(t@ =~= default_template_with(names));
        }
    } else {
        if p.show_elapsed {
            t.append("{elapsed_precise}");
            t.append(" ");
        }
        match p.width {
            Some(w) => {
                t.append("{bar:");
                let digits = u32_decimal(w);
                t.append(digits.as_str());
                t.append("} {percent}");
            },
            None => {
                t.append("{wide_bar} {percent}");
            },
        }
        if p.show_transferred_amount {
            t.append(" ");
            t.append(pos_name);
            if p.estimated_total.is_some() {
                t.append("/");
                t.append(total_name);
            }
        }
        if p.show_rate {
            t.append(" ");
            t.append(rate_name);
        }
        if p.show_eta {
            t.append(" ");
            t.append("{eta_precise}");
        }
        proof {
            assert(t@ =~= explicit_template_with(*p, names));
        }
    }
    RenderSpec { template: t, bounded: p.estimated_total.is_some() }
}

/// When no segment preference at all is set, the fixed maximal default
/// template is produced, whatever the remaining fields hold — never an
/// empty or near-empty one.
pub proof fn lemma_no_preferences_full_default(p: DisplayPreferences)
    requires
        !p.show_elapsed,
        !p.show_transferred_amount,
        !p.show_rate,
        !p.show_eta,
    ensures
        spec_template(p) == default_template_with(counter_names(p.line_mode)),
{
}

/// The byte-mode and line-mode counting placeholders are pairwise distinct:
/// no placeholder name is shared between the two modes.
pub proof fn lemma_counter_names_disjoint()
    ensures
        counter_names(true).0 != counter_names(false).0,
        counter_names(true).0 != counter_names(false).1,
        counter_names(true).0 != counter_names(false).2,
        counter_names(true).1 != counter_names(false).0,
        counter_names(true).1 != counter_names(false).1,
        counter_names(true).1 != counter_names(false).2,
        counter_names(true).2 != counter_names(false).0,
        counter_names(true).2 != counter_names(false).1,
        counter_names(true).2 != counter_names(false).2,
{
    reveal_strlit("{pos}");
    reveal_strlit("{len}");
    reveal_strlit("{per_sec}");
    reveal_strlit("{bytes}");
    reveal_strlit("{total_bytes}");
    reveal_strlit("{bytes_per_sec}");
    assert(counter_names(true).0.len() == 5);
    assert(counter_names(true).1.len() == 5);
    assert(counter_names(true).2.len() == 9);
    assert(counter_names(false).0.len() == 7);
    assert(counter_names(false).1.len() == 13);
    assert(counter_names(false).2.len() == 15);
}

/// Toggling line mode while holding every other preference fixed changes
/// only the counting placeholder names, never which segments are selected:
/// the result is the same template assembled with the other mode's names.
pub proof fn lemma_line_mode_only_renames(p: DisplayPreferences, q: DisplayPreferences)
    requires
        q.estimated_total == p.estimated_total,
        q.show_elapsed == p.show_elapsed,
        q.width == p.width,
        q.show_transferred_amount == p.show_transferred_amount,
        q.show_eta == p.show_eta,
        q.show_rate == p.show_rate,
    ensures
        spec_template(q) == template_with(p, counter_names(q.line_mode)),
{
}

/// The compatibility fields are inert: two preference values that agree on
/// everything else produce the same template and the same mode.
pub proof fn lemma_compat_fields_inert(p: DisplayPreferences, q: DisplayPreferences)
    requires
        q.estimated_total == p.estimated_total,
        q.show_elapsed == p.show_elapsed,
        q.width == p.width,
        q.show_transferred_amount == p.show_transferred_amount,
        q.show_eta == p.show_eta,
        q.show_rate == p.show_rate,
        q.line_mode == p.line_mode,
    ensures
        spec_template(q) == spec_template(p),
{
}

} // verus!
