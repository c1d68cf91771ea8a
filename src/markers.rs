//! Discovery: which directory entries are diagram sources, and how many
//! layers a diagram has, counted from its layer markers.

use vstd::prelude::*;

verus! {

/// regex::Regex, a compiled regular expression, carried opaquely.
#[verifier::external_type_specification]
#[verifier::external_body]
pub struct ExRegex(regex::Regex);

/// regex::Error, why a pattern did not compile, carried opaquely.
#[verifier::external_type_specification]
#[verifier::external_body]
pub struct ExRegexError(regex::Error);

/// The number of non-overlapping matches of the regular expression `pattern`
/// in `text`.
pub uninterp spec fn match_count(pattern: Seq<char>, text: Seq<char>) -> nat;

/// Whether `pattern` is a regular expression that compiles within the
/// default size limit.
pub uninterp spec fn pattern_compiles(pattern: Seq<char>) -> bool;

/// The marker of a layer: a cell whose parent is the diagram's root cell.
pub const LAYER_MARKER_PATTERN: &'static str = "<mxCell id=\".*\" value=\".*\" parent=\".\" />";

/// The extension of diagram source files.
pub const SOURCE_EXTENSION: &'static str = "drawio";

/// Relies on regex::Regex::new: compiles `pattern`, or reports why it cannot;
/// whether it succeeds depends on the pattern alone.
#[verifier::external_body]
fn compile_regex(pattern: &str) -> (r: Result<regex::Regex, regex::Error>)
    ensures
        r is Ok <==> pattern_compiles(pattern@),
{
    regex::Regex::new(pattern)
}

/// Counts the layer markers of diagram texts.
pub struct LayerScanner {
    pattern: String,
    re: regex::Regex,
}

/// Why a scanner could not be built.
#[derive(Clone, Copy, Debug, PartialEq, Eq, Structural)]
pub enum ScanError {
    InvalidPattern,
}

/// The layer count of a diagram with `markers` layer markers: a diagram
/// without markers has one layer.
pub open spec fn layers_from_markers(markers: nat) -> nat {
    if markers == 0 { 1 } else { markers }
}

/// The layer count of a diagram with `markers` layer markers.
pub fn layer_count_from_markers(markers: usize) -> (r: usize)
    ensures
        r == layers_from_markers(markers as nat),
        r >= 1,
{
    if markers == 0 { 1 } else { markers }
}

impl LayerScanner {
    /// The pattern this scanner matches.
    pub closed spec fn pattern(&self) -> Seq<char> {
        self.pattern@
    }

    /// A scanner for the matches of `pattern`.
    pub fn new(pattern: &str) -> (r: Result<LayerScanner, ScanError>)
        ensures
            r is Ok <==> pattern_compiles(pattern@),
            r matches Ok(s) ==> s.pattern() == pattern@,
    {
        match compile_regex(pattern) {
            Ok(re) => Ok(LayerScanner { pattern: String::from_str(pattern), re }),
            Err(_) => Err(ScanError::InvalidPattern),
        }
    }

    /// A scanner for layer markers.
    pub fn layer_markers() -> (r: Result<LayerScanner, ScanError>)
        ensures
            r is Ok <==> pattern_compiles(LAYER_MARKER_PATTERN@),
            r matches Ok(s) ==> s.pattern() == LAYER_MARKER_PATTERN@,
    {
        LayerScanner::new(LAYER_MARKER_PATTERN)
    }

    /// Relies on regex::Regex::find_iter: the successive non-overlapping
    /// matches in `text` of the expression this scanner was compiled from,
    /// which `new` keeps beside it.
    #[verifier::external_body]
    fn count_matches(&self, text: &str) -> (r: usize)
        ensures
            r == match_count(self.pattern(), text@),
    {
        self.re.find_iter(text).count()
    }

    /// The number of layers of the diagram `text`.
    pub fn layer_count(&self, text: &str) -> (r: usize)
        ensures
            r == layers_from_markers(match_count(self.pattern(), text@)),
            r >= 1,
    {
        let markers = self.count_matches(text);
        layer_count_from_markers(markers)
    }
}

/// Whether a directory entry with extension `ext` is a diagram source.
pub fn is_source_extension(ext: &String) -> (r: bool)
    ensures
        r == (ext@ == SOURCE_EXTENSION@),
{
    let want = String::from_str(SOURCE_EXTENSION);
    *ext == want
}

} // verus!
