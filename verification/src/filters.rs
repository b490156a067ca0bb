//! The directive filters of the template language.
//!
//! Five filter names are reserved for layout directives embedded inline in
//! template text: `nb` (no-break), `anchor`, `scale`, `ho` and `vo`.  They
//! contribute no text to the rendered string; their whole purpose is to
//! mutate the layout settings of the surrounding call.  Two contexts
//! implement the filter protocol over them: [`TemplateContext`] applies the
//! mutations to a settings value, [`IgnoreTGFiltersContext`] recognizes the
//! same names but mutates nothing.

use vstd::prelude::*;

use crate::settings::HORIZONTAL_WRAP_MODE_OVERFLOW;
use crate::settings::TextGenerationSettings;
use crate::template::Context;
use crate::template::FilterOutcome;
use crate::template::Token;
use crate::template::str_eq;

verus! {

/// Whether `name` is one of the five reserved directive filter names.
pub open spec fn is_settings_filter(name: Seq<char>) -> bool {
    ||| name == "nb"@
    ||| name == "anchor"@
    ||| name == "scale"@
    ||| name == "ho"@
    ||| name == "vo"@
}

/// The first argument of a filter invocation, if it is a numeric literal.
pub open spec fn spec_first_number(args: Seq<Token>) -> Option<i32> {
    if args.len() > 0 {
        match args[0] {
            Token::NumberLit(n) => Some(n),
            _ => None,
        }
    } else {
        None
    }
}

/// `n / 100`, rounded to the nearest integer, ties away from zero.
pub open spec fn round_div_100(n: int) -> int {
    if n >= 0 {
        (n + 50) / 100
    } else {
        -(((-n) + 50) / 100)
    }
}

/// `n` forced into the range of `i32`.
pub open spec fn clamp_i32(n: int) -> int {
    if n < i32::MIN as int {
        i32::MIN as int
    } else if n > i32::MAX as int {
        i32::MAX as int
    } else {
        n
    }
}

/// The font size after a `scale pct` directive: `font * pct / 100`,
/// rounded to the nearest integer and clamped to the range of `i32`.
pub open spec fn scaled_font_size(font: int, pct: int) -> int {
    clamp_i32(round_div_100(font * pct))
}

/// Computes [`scaled_font_size`] on machine integers.
pub fn scale_font(font: i32, pct: i32) -> (r: i32)
    ensures
        r as int == scaled_font_size(font as int, pct as int),
{
    proof {
        let f = font as int;
        let p = pct as int;
        assert(f * p <= 0x4000_0000_0000_0000 && f * p >= -0x4000_0000_0000_0000)
            by (nonlinear_arith)
            requires
                -0x8000_0000 <= f <= 0x7fff_ffff,
                -0x8000_0000 <= p <= 0x7fff_ffff,
        ;
    }
    let prod: i64 = (font as i64) * (pct as i64);
    let neg: bool = prod < 0;
    let mag: u64 = if neg {
        (-prod) as u64
    } else {
        prod as u64
    };
    let q: u64 = (mag + 50) / 100;
    if neg {
        if q >= 0x8000_0000u64 {
            i32::MIN
        } else {
            0 - (q as i32)
        }
    } else {
        if q > 0x7fff_ffffu64 {
            i32::MAX
        } else {
            q as i32
        }
    }
}

/// The settings a recognized, valid filter invocation rewrites `s` to.
/// `None` when the name is not a directive or its argument is missing,
/// non-numeric or out of range; the caller must then leave the settings
/// untouched.
pub open spec fn filter_result(
    s: TextGenerationSettings,
    name: Seq<char>,
    args: Seq<Token>,
) -> Option<TextGenerationSettings> {
    if name == "nb"@ {
        Some(TextGenerationSettings {
            horizontal_overflow: HORIZONTAL_WRAP_MODE_OVERFLOW,
            generate_out_of_bounds: true,
            ..s
        })
    } else if name == "anchor"@ {
        match spec_first_number(args) {
            Some(v) => if 1 <= v && v <= 9 {
                Some(TextGenerationSettings { text_anchor: (v - 1) as i32, ..s })
            } else {
                None
            },
            None => None,
        }
    } else if name == "scale"@ {
        match spec_first_number(args) {
            Some(p) => Some(
                TextGenerationSettings {
                    font_size: scaled_font_size(s.font_size as int, p as int) as i32,
                    ..s
                },
            ),
            None => None,
        }
    } else if name == "ho"@ {
        match spec_first_number(args) {
            Some(v) => if v == 0 || v == 1 {
                Some(TextGenerationSettings { horizontal_overflow: v, ..s })
            } else {
                None
            },
            None => None,
        }
    } else if name == "vo"@ {
        match spec_first_number(args) {
            Some(v) => if v == 0 || v == 1 {
                Some(TextGenerationSettings { vertical_overflow: v, ..s })
            } else {
                None
            },
            None => None,
        }
    } else {
        None
    }
}

/// The first argument of a filter invocation, if it is a numeric literal.
fn first_number(args: &[Token]) -> (r: Option<i32>)
    ensures
        r == spec_first_number(args@),
{
    match args.get(0) {
        Some(Token::NumberLit(n)) => Some(*n),
        _ => None,
    }
}

/// The settings-mutating filter context: interprets the directive filters
/// against the layout settings of the intercepted call.  A recognized,
/// valid directive rewrites the settings and is handled with empty output;
/// anything else leaves them exactly as they were.
#[derive(Clone, Copy, Debug, PartialEq, Eq, Structural)]
pub struct TemplateContext {
    /// The layout settings of the call being intercepted.
    pub settings: TextGenerationSettings,
}

impl Context for TemplateContext {
    open spec fn filter_post(self, name: Seq<char>, args: Seq<Token>) -> Self {
        match filter_result(self.settings, name, args) {
            Some(s2) => TemplateContext { settings: s2 },
            None => self,
        }
    }

    open spec fn filter_outcome(self, name: Seq<char>, args: Seq<Token>) -> FilterOutcome {
        if filter_result(self.settings, name, args) is Some {
            FilterOutcome::HandledEmpty
        } else {
            FilterOutcome::Unrecognized
        }
    }

    fn on_filter_eval(&mut self, name: &str, args: &[Token]) -> (r: FilterOutcome) {
        if str_eq(name, "nb") {
            self.settings.horizontal_overflow = HORIZONTAL_WRAP_MODE_OVERFLOW;
            self.settings.generate_out_of_bounds = true;
            FilterOutcome::HandledEmpty
        } else if str_eq(name, "anchor") {
            match first_number(args) {
                Some(v) => {
                    if 1 <= v && v <= 9 {
                        self.settings.text_anchor = v - 1;
                        FilterOutcome::HandledEmpty
                    } else {
                        FilterOutcome::Unrecognized
                    }
                },
                None => FilterOutcome::Unrecognized,
            }
        } else if str_eq(name, "scale") {
            match first_number(args) {
                Some(p) => {
                    self.settings.font_size = scale_font(self.settings.font_size, p);
                    FilterOutcome::HandledEmpty
                },
                None => FilterOutcome::Unrecognized,
            }
        } else if str_eq(name, "ho") {
            match first_number(args) {
                Some(v) => {
                    if v == 0 || v == 1 {
                        self.settings.horizontal_overflow = v;
                        FilterOutcome::HandledEmpty
                    } else {
                        FilterOutcome::Unrecognized
                    }
                },
                None => FilterOutcome::Unrecognized,
            }
        } else if str_eq(name, "vo") {
            match first_number(args) {
                Some(v) => {
                    if v == 0 || v == 1 {
                        self.settings.vertical_overflow = v;
                        FilterOutcome::HandledEmpty
                    } else {
                        FilterOutcome::Unrecognized
                    }
                },
                None => FilterOutcome::Unrecognized,
            }
        } else {
            FilterOutcome::Unrecognized
        }
    }
}

/// Filter context for call sites that have no layout settings to offer:
/// recognizes the directive filter names so they are suppressed from the
/// rendered text, but performs no mutation at all.
#[derive(Clone, Copy, Debug, PartialEq, Eq, Structural)]
pub struct IgnoreTGFiltersContext();

impl Context for IgnoreTGFiltersContext {
    open spec fn filter_post(self, name: Seq<char>, args: Seq<Token>) -> Self {
        self
    }

    open spec fn filter_outcome(self, name: Seq<char>, args: Seq<Token>) -> FilterOutcome {
        if is_settings_filter(name) {
            FilterOutcome::HandledEmpty
        } else {
            FilterOutcome::Unrecognized
        }
    }

    fn on_filter_eval(&mut self, name: &str, args: &[Token]) -> (r: FilterOutcome) {
        if str_eq(name, "nb") || str_eq(name, "anchor") || str_eq(name, "scale") || str_eq(
            name,
            "ho",
        ) || str_eq(name, "vo") {
            FilterOutcome::HandledEmpty
        } else {
            FilterOutcome::Unrecognized
        }
    }
}

/// Law: evaluating any filter through the passive context leaves the
/// context exactly as it was, and each of the five directive names is
/// recognized (handled with empty output) whatever its arguments, so no
/// directive ever leaks into rendered text or trips an error there.
pub proof fn lemma_passive_context_inert(
    c: IgnoreTGFiltersContext,
    name: Seq<char>,
    args: Seq<Token>,
)
    ensures
        c.filter_post(name, args) == c,
        is_settings_filter(name) ==> c.filter_outcome(name, args) == FilterOutcome::HandledEmpty,
        !is_settings_filter(name) ==> c.filter_outcome(name, args) == FilterOutcome::Unrecognized,
{
}

/// Law: every filter invocation the mutating context accepts bears one of
/// the five directive names — exactly the names the passive context
/// recognizes.  A directive suppressed in one context is therefore never
/// echoed as literal text in the other.
pub proof fn lemma_accepted_filters_are_directives(
    s: TextGenerationSettings,
    name: Seq<char>,
    args: Seq<Token>,
)
    ensures
        filter_result(s, name, args) is Some ==> is_settings_filter(name),
{
}

/// Law: a filter invocation the mutating context does not accept — an
/// unknown name, or a directive with a missing, non-numeric or out-of-range
/// argument — leaves the settings exactly as they were: there is no partial
/// mutation on invalid input.
pub proof fn lemma_rejected_filter_mutates_nothing(
    c: TemplateContext,
    name: Seq<char>,
    args: Seq<Token>,
)
    requires
        filter_result(c.settings, name, args) is None,
    ensures
        c.filter_post(name, args) == c,
        c.filter_outcome(name, args) == FilterOutcome::Unrecognized,
{
}

} // verus!
