//! Reusable object-key filters: a mask compiles a name, a pattern, a match
//! kind and a case-sensitivity flag into a predicate over object keys.
//!
//! The prefix, suffix and contains kinds are verified byte-for-byte against
//! their specifications. The regex kind delegates to the `regex` crate behind
//! trusted wrappers whose results are named, never restated.

use vstd::prelude::*;

use crate::text::{contains_sub, contains_sub_exec, fold_bytes, fold_bytes_exec, is_prefix_exec,
    is_prefix_of, is_suffix_exec, is_suffix_of};
use vstd::string::StrSliceExecFns;
use vstd::string::StringExecFns;
use vstd::utf8::encode_utf8;

verus! {

/// Whether the regex engine accepts `p` as a pattern (with the given
/// case-insensitivity flag); the answer depends on the pattern alone.
pub uninterp spec fn regex_builds(p: Seq<char>, case_insensitive: bool) -> bool;

/// Whether the regex compiled from `p` finds a match anywhere in `k`; the
/// answer depends on the pattern, the flag and the haystack alone.
pub uninterp spec fn regex_found(p: Seq<char>, case_insensitive: bool, k: Seq<char>) -> bool;

/// Relies on regex::RegexBuilder::build: whether the pattern compiles is a
/// function of the pattern text and the flags alone.
#[verifier::external_body]
fn regex_build_ok(pattern: &str, case_insensitive: bool) -> (r: bool)
    ensures
        r == regex_builds(pattern@, case_insensitive),
{
    regex::RegexBuilder::new(pattern).case_insensitive(case_insensitive).build().is_ok()
}

/// Relies on regex::Regex::is_match: an unanchored search whose outcome is a
/// function of the pattern, the flags and the haystack alone.
#[verifier::external_body]
fn regex_search(pattern: &str, case_insensitive: bool, key: &str) -> (r: bool)
    ensures
        regex_builds(pattern@, case_insensitive) ==> r == regex_found(
            pattern@,
            case_insensitive,
            key@,
        ),
        !regex_builds(pattern@, case_insensitive) ==> r == false,
{
    match regex::RegexBuilder::new(pattern).case_insensitive(case_insensitive).build() {
        Ok(re) => re.is_match(key),
        Err(_) => false,
    }
}

/// How a mask's pattern is held against an object key.
#[derive(Clone, Copy, Debug, PartialEq, Eq, Structural)]
pub enum MaskKind {
    Prefix,
    Suffix,
    Contains,
    Regex,
}

impl MaskKind {
    pub open spec fn label_spec(self) -> Seq<char> {
        match self {
            MaskKind::Prefix => "prefix"@,
            MaskKind::Suffix => "suffix"@,
            MaskKind::Contains => "contains"@,
            MaskKind::Regex => "regex"@,
        }
    }

    pub fn label(&self) -> (r: &'static str)
        ensures
            r@ == self.label_spec(),
    {
        match self {
            MaskKind::Prefix => "prefix",
            MaskKind::Suffix => "suffix",
            MaskKind::Contains => "contains",
            MaskKind::Regex => "regex",
        }
    }
}

/// Why a mask draft was rejected.
#[derive(Clone, Copy, Debug, PartialEq, Eq, Structural)]
pub enum MaskCompileError {
    EmptyPattern,
    InvalidRegex,
}

impl MaskCompileError {
    pub open spec fn message_spec(self) -> Seq<char> {
        match self {
            MaskCompileError::EmptyPattern => "Mask pattern cannot be empty"@,
            MaskCompileError::InvalidRegex => "Mask pattern is not a valid regular expression"@,
        }
    }

    pub fn message(&self) -> (r: &'static str)
        ensures
            r@ == self.message_spec(),
    {
        match self {
            MaskCompileError::EmptyPattern => "Mask pattern cannot be empty",
            MaskCompileError::InvalidRegex => "Mask pattern is not a valid regular expression",
        }
    }
}

/// A named, compiled predicate over object keys.
pub struct ObjectMask {
    pub name: String,
    pub pattern: String,
    pub kind: MaskKind,
    pub case_sensitive: bool,
}

impl Clone for ObjectMask {
    fn clone(&self) -> (r: Self)
        ensures
            r == *self,
    {
        ObjectMask {
            name: self.name.clone(),
            pattern: self.pattern.clone(),
            kind: self.kind,
            case_sensitive: self.case_sensitive,
        }
    }
}

/// Folds to ASCII lower case when the comparison ignores case.
pub open spec fn fold_if(ignore_case: bool, s: Seq<u8>) -> Seq<u8> {
    if ignore_case {
        fold_bytes(s)
    } else {
        s
    }
}

impl ObjectMask {
    /// A mask fit to be active: non-empty pattern, and a pattern the regex
    /// engine accepts when the kind is regex.
    pub open spec fn ok(self) -> bool {
        self.pattern@.len() > 0 && (self.kind is Regex ==> regex_builds(
            self.pattern@,
            !self.case_sensitive,
        ))
    }

    /// Whether this mask selects the object key `key`.
    pub open spec fn matches_spec(self, key: Seq<char>) -> bool {
        let ic = !self.case_sensitive;
        let p = fold_if(ic, encode_utf8(self.pattern@));
        let k = fold_if(ic, encode_utf8(key));
        match self.kind {
            MaskKind::Prefix => is_prefix_of(p, k),
            MaskKind::Suffix => is_suffix_of(p, k),
            MaskKind::Contains => contains_sub(p, k),
            MaskKind::Regex => regex_builds(self.pattern@, ic) && regex_found(
                self.pattern@,
                ic,
                key,
            ),
        }
    }

    /// Holds the key against the mask's pattern.
    pub fn matches(&self, key: &str) -> (r: bool)
        ensures
            r == self.matches_spec(key@),
    {
        match self.kind {
            MaskKind::Regex => regex_search(self.pattern.as_str(), !self.case_sensitive, key),
            _ => {
                let mut pb = self.pattern.as_str().as_bytes_vec();
                let mut kb = key.as_bytes_vec();
                if !self.case_sensitive {
                    pb = fold_bytes_exec(&pb);
                    kb = fold_bytes_exec(&kb);
                }
                match self.kind {
                    MaskKind::Prefix => is_prefix_exec(&pb, &kb),
                    MaskKind::Suffix => is_suffix_exec(&pb, &kb),
                    _ => contains_sub_exec(&pb, &kb),
                }
            },
        }
    }

    /// Validates a draft and produces the mask that may become active.
    /// An empty pattern is rejected for every kind; a regex pattern the
    /// engine refuses is rejected as well, so an invalid regex can never
    /// become an active mask.
    pub fn compile(name: String, pattern: String, kind: MaskKind, case_sensitive: bool) -> (r:
        Result<ObjectMask, MaskCompileError>)
        ensures
            match r {
                Ok(m) => m == (ObjectMask { name, pattern, kind, case_sensitive }) && m.ok(),
                Err(e) => {
                    &&& (e is EmptyPattern <==> pattern@.len() == 0)
                    &&& !(ObjectMask { name, pattern, kind, case_sensitive }).ok()
                },
            },
    {
        if pattern.as_str().is_empty() {
            return Err(MaskCompileError::EmptyPattern);
        }
        if matches!(kind, MaskKind::Regex) && !regex_build_ok(pattern.as_str(), !case_sensitive) {
            return Err(MaskCompileError::InvalidRegex);
        }
        Ok(ObjectMask { name, pattern, kind, case_sensitive })
    }

    /// For the non-regex kinds, a case-insensitive mask cannot tell apart
    /// two keys that agree up to ASCII case: matching depends only on the
    /// folded text.
    pub proof fn lemma_case_insensitive_fold(self, k1: Seq<char>, k2: Seq<char>)
        requires
            !(self.kind is Regex),
            !self.case_sensitive,
            fold_bytes(encode_utf8(k1)) == fold_bytes(encode_utf8(k2)),
        ensures
            self.matches_spec(k1) == self.matches_spec(k2),
    {
    }

    /// For the non-regex kinds, the case-sensitivity flag changes nothing
    /// when neither the pattern nor the key holds an upper-case ASCII
    /// letter: toggling it can flip the result only where their casing
    /// differs.
    pub proof fn lemma_flag_irrelevant_when_folded(self, key: Seq<char>)
        requires
            !(self.kind is Regex),
            fold_bytes(encode_utf8(self.pattern@)) == encode_utf8(self.pattern@),
            fold_bytes(encode_utf8(key)) == encode_utf8(key),
        ensures
            self.matches_spec(key) == (ObjectMask {
                case_sensitive: !self.case_sensitive,
                ..self
            }).matches_spec(key),
    {
    }

    /// The one-line description other components show for this mask.
    pub fn summary(&self) -> (r: String)
        ensures
            r@ == self.name@ + " ("@ + self.kind.label_spec() + ": "@ + self.pattern@ + ")"@,
    {
        let mut s = self.name.clone();
        s.append(" (");
        s.append(self.kind.label());
        s.append(": ");
        s.append(self.pattern.as_str());
        s.append(")");
        s
    }
}

} // verus!
