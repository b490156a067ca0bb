//! The filter protocol of the template language.
//!
//! Template text is tokenized by an external parser; this crate only reads
//! the resulting tokens.  For every filter invocation the evaluator calls
//! back into a [`Context`], which either produces replacement text, reports
//! that it handled the filter without contributing text, or does not
//! recognize the name at all (letting the evaluator fall back to its
//! default rendering).

use vstd::prelude::*;

verus! {

/// An already-parsed unit of template text.  Filter arguments may be
/// numeric literals or other token kinds; the filters of this crate only
/// act on numeric arguments.
pub enum Token {
    /// A run of literal text.
    Text(String),
    /// A numeric literal argument.
    NumberLit(i32),
    /// A filter invocation: a name and its ordered argument list.
    Filter(String, Vec<Token>),
}

/// What a context made of one filter invocation.
#[derive(Debug, PartialEq)]
pub enum FilterOutcome {
    /// The filter is known and produced this text.
    Produced(String),
    /// The filter is known and fully handled, but contributes no literal
    /// text.  Distinct from `Produced` of an empty string only in intent:
    /// both render as nothing, but a context must still report recognition
    /// so the evaluator does not echo the filter name as literal output.
    HandledEmpty,
    /// The name is not known to this context; the evaluator falls back to
    /// its default rendering.
    Unrecognized,
}

/// The seam between the template evaluator and a call site.  An
/// implementation must treat unknown names as [`FilterOutcome::Unrecognized`],
/// must validate arguments before acting, and may apply side effects only
/// once validation has fully succeeded: on invalid input the state must be
/// left exactly as it was.
///
/// Each implementation gives its behaviour as two spec functions, and its
/// `on_filter_eval` is verified against them.
pub trait Context: Sized {
    /// The context's state after evaluating the named filter.
    spec fn filter_post(self, name: Seq<char>, args: Seq<Token>) -> Self;

    /// The outcome the named filter evaluates to in this state.
    spec fn filter_outcome(self, name: Seq<char>, args: Seq<Token>) -> FilterOutcome;

    /// Attempt to evaluate the named filter with the given arguments.
    fn on_filter_eval(&mut self, name: &str, args: &[Token]) -> (r: FilterOutcome)
        ensures
            *final(self) == old(self).filter_post(name@, args@),
            r == old(self).filter_outcome(name@, args@),
    ;
}

/// Character-wise string equality, for matching filter names.
pub fn str_eq(a: &str, b: &str) -> (r: bool)
    ensures
        r == (a@ == b@),
{
    let a_len = a.unicode_len();
    let b_len = b.unicode_len();
    if a_len != b_len {
        return false;
    }
    let mut i: usize = 0;
    while i < a_len
        invariant
            a_len == a@.len(),
            a_len == b@.len(),
            i <= a_len,
            forall|j: int| 0 <= j < i ==> a@[j] == b@[j],
        decreases a_len - i,
    {
        if a.get_char(i) != b.get_char(i) {
            return false;
        }
        i = i + 1;
    }
    proof {
        assert(a@ =~= b@);
    }
    true
}

} // verus!
