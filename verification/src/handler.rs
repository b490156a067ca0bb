//! The per-call decision of the interception handler.
//!
//! On every intercepted text-generation call the handler looks at one
//! consistent snapshot of the localization tables and the input string and
//! decides: substitute the pre-translated string found by content hash,
//! evaluate the input as a template (the only path that may mutate the
//! layout settings), or pass the input through unchanged.  The chosen
//! string and the possibly-mutated settings are then always forwarded to
//! the pre-redirection implementation by the surrounding glue.

use std::collections::HashMap;
use vstd::prelude::*;

verus! {

broadcast use vstd::std_specs::hash::group_hash_axioms;

/// UTF-16 code unit of the template-directive marker character, `$`.
pub const DIRECTIVE_MARKER_UTF16: u16 = 36;

/// One consistent snapshot of the localization tables.  An external
/// subsystem owns and reloads the tables; the handler only reads a
/// snapshot taken at the start of the call.
pub struct LocalizedData {
    /// Literal replacement strings, keyed by the content hash of the
    /// original string.  An exact hit here bypasses templating entirely.
    pub hashed_dict: HashMap<u64, String>,
    /// Translations keyed by textual key.  The handler only asks whether
    /// any are loaded; lookups happen elsewhere.
    pub localize_dict: Vec<(String, String)>,
    /// Free-form override texts keyed by textual key.  As above, the
    /// handler only asks whether any are loaded.
    pub text_data_dict: Vec<(String, String)>,
}

/// What the handler decided to do with one intercepted call.
pub enum TextAction {
    /// Forward this pre-translated string instead of the input.
    Substitute(String),
    /// Parse and evaluate the input as a template against the call's
    /// settings, and forward the evaluated text.
    Evaluate,
    /// Forward the input unchanged.
    Passthrough,
}

/// Whether the string (as UTF-16 code units) holds the directive marker.
pub open spec fn contains_marker(units: Seq<u16>) -> bool {
    exists|i: int| 0 <= i < units.len() && units[i] == DIRECTIVE_MARKER_UTF16
}

/// Whether the hashed table is loaded and holds the input's content hash.
pub open spec fn hash_hit(data: LocalizedData, hash: u64) -> bool {
    data.hashed_dict@.len() > 0 && data.hashed_dict@.contains_key(hash)
}

/// Whether the input is to be evaluated as a template: no exact-hash hit,
/// at least one dynamic dictionary loaded, and the directive marker
/// present in the input.
pub open spec fn wants_template(data: LocalizedData, hash: u64, units: Seq<u16>) -> bool {
    &&& !hash_hit(data, hash)
    &&& data.localize_dict@.len() > 0 || data.text_data_dict@.len() > 0
    &&& contains_marker(units)
}

/// Whether the input is to be forwarded unchanged.
pub open spec fn passes_through(data: LocalizedData, hash: u64, units: Seq<u16>) -> bool {
    !hash_hit(data, hash) && !wants_template(data, hash, units)
}

/// Whether the string (as UTF-16 code units) holds the directive marker.
pub fn contains_directive_marker(units: &Vec<u16>) -> (r: bool)
    ensures
        r == contains_marker(units@),
{
    let mut i: usize = 0;
    while i < units.len()
        invariant
            i <= units@.len(),
            forall|j: int| 0 <= j < i ==> units@[j] != DIRECTIVE_MARKER_UTF16,
        decreases units@.len() - i,
    {
        if units[i] == DIRECTIVE_MARKER_UTF16 {
            return true;
        }
        i = i + 1;
    }
    false
}

/// Decides what to do with one intercepted call: `hash` is the content
/// hash of the input string, `text_units` its UTF-16 code units.  An
/// exact-hash hit substitutes the mapped string; otherwise the input is
/// evaluated as a template only when a dynamic dictionary is loaded and
/// the input looks like a template; otherwise it passes through.
pub fn choose_action(data: &LocalizedData, hash: u64, text_units: &Vec<u16>) -> (r: TextAction)
    ensures
        r is Substitute <==> hash_hit(*data, hash),
        r matches TextAction::Substitute(t) ==> t@ == data.hashed_dict@[hash]@,
        r is Evaluate <==> wants_template(*data, hash, text_units@),
        r is Passthrough <==> passes_through(*data, hash, text_units@),
{
    if !data.hashed_dict.is_empty() {
        match data.hashed_dict.get(&hash) {
            Some(text) => {
                return TextAction::Substitute(text.clone());
            },
            None => {},
        }
    }
    if !data.localize_dict.is_empty() || !data.text_data_dict.is_empty() {
        if contains_directive_marker(text_units) {
            TextAction::Evaluate
        } else {
            TextAction::Passthrough
        }
    } else {
        TextAction::Passthrough
    }
}

/// Law: an exact-hash hit short-circuits templating.  Whenever the hashed
/// table holds the input's hash, the decision is the mapped string; the
/// template path — the only path that can read or mutate the layout
/// settings — is not taken, whatever the settings or the input hold.
pub proof fn lemma_hash_hit_short_circuits(data: LocalizedData, hash: u64, units: Seq<u16>)
    requires
        hash_hit(data, hash),
    ensures
        !wants_template(data, hash, units),
        !passes_through(data, hash, units),
{
}

/// Law: a string without the directive marker, whose hash the hashed
/// table does not hold, is forwarded unchanged, and the settings stay as
/// they were, since only the template path mutates them.  In particular a
/// string that templating has already evaluated to directive-free output
/// decides to pass through again on a second interception: re-evaluation
/// is a no-op.
pub proof fn lemma_directive_free_passthrough(data: LocalizedData, hash: u64, units: Seq<u16>)
    requires
        !contains_marker(units),
        !hash_hit(data, hash),
    ensures
        passes_through(data, hash, units),
{
}

} // verus!
