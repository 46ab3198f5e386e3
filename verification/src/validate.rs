//! Validator decisions and diagnostic rendering.
//!
//! Parsing itself belongs to the outside grammar collaborator; the caller
//! hands in either the canonical pretty rendering of the parsed value or
//! the positional diagnostic the parser produced. Everything decided from
//! that point on — drift detection, auto-fix, and the two equivalent
//! renderings of a diagnostic — is specified exactly here.
use vstd::prelude::*;
use vstd::string::StrSliceExecFns;
use vstd::string::StringExecFns;
use crate::render;
use crate::strings;

verus! {

/// A structured parse diagnostic: an error-kind classifier, 1-based line
/// and column, a human message, and an optional corrective suggestion.
#[derive(Clone, Debug)]
pub struct ParseDiag {
    pub kind: String,
    pub line: u64,
    pub column: u64,
    pub message: String,
    pub suggestion: Option<String>,
}

/// The outcome of validating a source file.
#[derive(Clone, Debug)]
pub enum ValidateOutcome {
    /// The text does not parse; the diagnostic says where and why.
    Invalid(ParseDiag),
    /// The text parses and already equals its pretty form (up to
    /// surrounding whitespace).
    Clean,
    /// The text parses but drifts from its pretty form; the carried text is
    /// the exact pretty form to write back in place.
    Fixed(String),
    /// The text parses but drifts from its pretty form, and no fix was
    /// requested: a warning, not an error.
    Drift,
}

/// The validation decision: parse failure is fatal, drift is repaired only
/// on request, and comparison trims surrounding whitespace only.
pub open spec fn validate_spec(
    content: Seq<char>,
    parsed: Result<String, ParseDiag>,
    fix: bool,
) -> ValidateOutcome {
    match parsed {
        Err(d) => ValidateOutcome::Invalid(d),
        Ok(pretty) => if strings::trim_spec(content) == strings::trim_spec(pretty@) {
            ValidateOutcome::Clean
        } else if fix {
            ValidateOutcome::Fixed(pretty)
        } else {
            ValidateOutcome::Drift
        },
    }
}

/// Decides the validation outcome for a source text. `parsed` is what the
/// grammar collaborator made of that text: the canonical pretty rendering
/// of the parsed value, or the parse diagnostic.
pub fn validate_content(content: &str, parsed: Result<String, ParseDiag>, fix: bool) -> (r:
    ValidateOutcome)
    ensures
        r == validate_spec(content@, parsed, fix),
{
    match parsed {
        Err(d) => ValidateOutcome::Invalid(d),
        Ok(pretty) => {
            if strings::eq_after_trim(content, pretty.as_str()) {
                ValidateOutcome::Clean
            } else if fix {
                ValidateOutcome::Fixed(pretty)
            } else {
                ValidateOutcome::Drift
            }
        },
    }
}

/// Law: repair converges. Once a file holds text that re-renders to
/// itself — in particular the exact pretty form an earlier `Fixed` outcome
/// wrote — validation reports `Clean`, with or without the fix request.
pub proof fn lemma_validate_fix_converges(pretty: String, fix: bool)
    ensures
        validate_spec(pretty@, Ok(pretty), fix) == ValidateOutcome::Clean,
{
}

/// The single-line machine-readable report for a parse failure. Every
/// field comes from the diagnostic; the kind, the message and the
/// suggestion are escaped as JSON string contents, so the line is always
/// valid JSON, and an absent suggestion renders empty.
pub open spec fn diag_json_spec(d: ParseDiag) -> Seq<char> {
    "{\"valid\": false, \"errors\": [{\"kind\": \""@ + render::esc_json_spec(d.kind@)
        + "\", \"line\": "@ + strings::dec_spec(
        d.line as nat,
    ) + ", \"column\": "@ + strings::dec_spec(d.column as nat) + ", \"message\": \""@
        + render::esc_json_spec(d.message@) + "\", \"suggestion\": \""@ + (match d.suggestion {
        Some(s) => render::esc_json_spec(s@),
        None => Seq::empty(),
    }) + "\"}]}"@
}

/// Renders the single-line machine-readable report for a parse failure.
pub fn diag_json_line(d: &ParseDiag) -> (r: String)
    ensures
        r@ == diag_json_spec(*d),
{
    let mut r = String::from_str("{\"valid\": false, \"errors\": [{\"kind\": \"");
    let kind = render::escape_json_string(d.kind.as_str());
    r.append(kind.as_str());
    r.append("\", \"line\": ");
    let line_digits = strings::u64_to_string(d.line);
    r.append(line_digits.as_str());
    r.append(", \"column\": ");
    let col_digits = strings::u64_to_string(d.column);
    r.append(col_digits.as_str());
    r.append(", \"message\": \"");
    let msg = render::escape_json_string(d.message.as_str());
    r.append(msg.as_str());
    r.append("\", \"suggestion\": \"");
    match &d.suggestion {
        Some(s) => {
            let sugg = render::escape_json_string(s.as_str());
            r.append(sugg.as_str());
        },
        None => {},
    }
    r.append("\"}]}");
    proof {
        assert(r@ =~= diag_json_spec(*d));
    }
    r
}

/// The constant machine-readable report for a file that parses.
pub fn valid_json_line() -> (r: String)
    ensures
        r@ == "{\"valid\": true, \"errors\": []}"@,
{
    String::from_str("{\"valid\": true, \"errors\": []}")
}

/// The human-readable report for a parse failure: one line naming the
/// error, one locating it, and one carrying the suggestion when there is
/// one. Both report forms derive from the same diagnostic fields.
pub fn diag_human_report(d: &ParseDiag) -> (r: Vec<String>)
    ensures
        r@.len() == if d.suggestion is Some {
            3int
        } else {
            2int
        },
        r@[0]@ == "\u{2717} Error: "@ + d.message@,
        r@[1]@ == "  at line "@ + strings::dec_spec(d.line as nat) + ", column "@
            + strings::dec_spec(d.column as nat),
        d.suggestion matches Some(s) ==> r@[2]@ == "  suggestion: "@ + s@,
{
    let mut r: Vec<String> = Vec::new();
    let mut l0 = String::from_str("\u{2717} Error: ");
    l0.append(d.message.as_str());
    r.push(l0);
    let mut l1 = String::from_str("  at line ");
    let line_digits = strings::u64_to_string(d.line);
    l1.append(line_digits.as_str());
    l1.append(", column ");
    let col_digits = strings::u64_to_string(d.column);
    l1.append(col_digits.as_str());
    r.push(l1);
    match &d.suggestion {
        Some(s) => {
            let mut l2 = String::from_str("  suggestion: ");
            l2.append(s.as_str());
            r.push(l2);
        },
        None => {},
    }
    r
}

} // verus!
