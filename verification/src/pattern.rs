//! The event filter: a compiled regular-expression pattern and the decision
//! whether a change event qualifies for dispatch.
//!
//! The regular-expression engine is an outside collaborator: compilation and
//! matching go through trusted wrappers, and what matching returns is named
//! by the uninterpreted function [`regex_match`]. The filter logic around it
//! (kind check, short-circuit scan over the paths) is verified.

use vstd::prelude::*;

use crate::event::ChangeEvent;
use crate::event::EventKind;
use crate::event::paths_view;

verus! {

#[verifier::external_type_specification]
#[verifier::external_body]
pub struct ExRegex(regex::Regex);

/// Whether `regex::Regex::new` accepts `pattern`: valid syntax and within the
/// engine's default compiled-size limit. Both are decided by the pattern text
/// alone.
pub uninterp spec fn regex_compiles(pattern: Seq<char>) -> bool;

/// What `regex::Regex::is_match` returns for the pattern compiled from
/// `pattern` on the haystack `text`: an unanchored substring search, true iff
/// some substring of `text` matches. The result depends on the two character
/// sequences alone.
pub uninterp spec fn regex_match(pattern: Seq<char>, text: Seq<char>) -> bool;

/// The error returned when a pattern does not compile, carrying the engine's
/// description of the fault.
pub struct PatternError {
    pub message: String,
}

impl PatternError {
    /// The engine's description of why the pattern was rejected.
    pub fn message(&self) -> (r: &String)
        ensures
            r@ == self.message@,
    {
        &self.message
    }
}

/// A regular expression compiled once, at startup, together with the source
/// text it was compiled from. The fields are private: [`CompiledPattern::new`]
/// is the only constructor, so `regex` is always the compilation of `source`.
pub struct CompiledPattern {
    regex: regex::Regex,
    source: String,
}

/// Relies on `regex::Regex::new`: it returns `Ok` exactly when the pattern
/// text compiles under the engine's defaults, a property of the text alone.
/// A compilation error is handed back as its display message.
#[verifier::external_body]
fn compile(source: &str) -> (r: Result<regex::Regex, String>)
    ensures
        r is Ok <==> regex_compiles(source@),
{
    regex::Regex::new(source).map_err(|e| e.to_string())
}

/// Relies on `regex::Regex::is_match`: an unanchored search whose result
/// depends on the compiled pattern and the haystack alone. `pattern.regex` is
/// always the compilation of `pattern.source` (the fields are private and
/// `CompiledPattern::new` is the only constructor).
#[verifier::external_body]
fn is_match_raw(pattern: &CompiledPattern, text: &str) -> (r: bool)
    ensures
        r == regex_match(pattern.source@, text@),
{
    pattern.regex.is_match(text)
}

impl CompiledPattern {
    /// The view of a compiled pattern: the source text it was compiled from.
    pub closed spec fn view(&self) -> Seq<char> {
        self.source@
    }

    /// Compile `source` once, at startup. Returns the compiled pattern
    /// exactly when the engine accepts `source`, and the engine's error
    /// message otherwise: an invalid pattern is a fatal configuration error,
    /// never a per-event condition.
    pub fn new(source: &str) -> (r: Result<CompiledPattern, PatternError>)
        ensures
            r is Ok <==> regex_compiles(source@),
            r is Ok ==> r->Ok_0@ == source@,
    {
        match compile(source) {
            Ok(regex) => Ok(CompiledPattern { regex, source: source.to_owned() }),
            Err(message) => Err(PatternError { message }),
        }
    }

    /// Whether `event` qualifies for dispatch: it is a modification and at
    /// least one of its paths matches this pattern. A pure function of the
    /// event and the pattern; evaluating it touches no other state.
    pub fn matches(&self, event: &ChangeEvent) -> (r: bool)
        ensures
            r == event_matches(event.kind, paths_view(event.paths@), self@),
    {
        let is_modify = event.kind == EventKind::Modify;
        if !is_modify {
            return false;
        }
        let mut i: usize = 0;
        while i < event.paths.len()
            invariant
                event.kind == EventKind::Modify,
                0 <= i <= event.paths@.len(),
                forall|j: int|
                    0 <= j < i ==> !regex_match(self@, #[trigger] paths_view(event.paths@)[j]),
            decreases event.paths@.len() - i,
        {
            if is_match_raw(self, event.paths[i].as_str()) {
                assert(regex_match(self@, paths_view(event.paths@)[i as int]));
                return true;
            }
            i += 1;
        }
        false
    }
}

/// A qualifying event: a modification whose path sequence contains at least
/// one path matching the pattern.
pub open spec fn event_matches(kind: EventKind, paths: Seq<Seq<char>>, pattern: Seq<char>) -> bool {
    kind == EventKind::Modify && exists|i: int|
        0 <= i < paths.len() && regex_match(pattern, #[trigger] paths[i])
}

/// Law: an event whose path sequence is empty never qualifies, whatever its
/// kind and whatever the pattern — no path can satisfy the pattern check.
pub proof fn lemma_empty_paths_never_match(kind: EventKind, pattern: Seq<char>)
    ensures
        !event_matches(kind, Seq::<Seq<char>>::empty(), pattern),
{
}

/// Law: an event whose kind is not a modification never qualifies, however
/// many of its paths match the pattern.
pub proof fn lemma_non_modify_never_matches(
    kind: EventKind,
    paths: Seq<Seq<char>>,
    pattern: Seq<char>,
)
    requires
        kind != EventKind::Modify,
    ensures
        !event_matches(kind, paths, pattern),
{
}

} // verus!
