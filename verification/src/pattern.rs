use vstd::prelude::*;

verus! {

/// What `regex::Regex::is_match` answers for a given pattern and text: whether
/// the regular expression `pattern` matches anywhere inside `text`. The answer
/// is a function of the two strings alone, so it is given a name here rather
/// than a definition.
pub uninterp spec fn regex_matches(pattern: Seq<char>, text: Seq<char>) -> bool;

/// Whether `pattern` is a valid regular expression: what `regex::Regex::new`
/// (under its default size limits) decides. A function of the pattern alone.
pub uninterp spec fn regex_compiles(pattern: Seq<char>) -> bool;

#[verifier::external_type_specification]
#[verifier::external_body]
pub struct ExRegex(regex::Regex);

/// A compiled regular expression, remembering the pattern it was compiled from.
/// Contracts over a `Matcher` speak of that pattern through [`Matcher::pattern`].
pub struct Matcher {
    re: regex::Regex,
    pattern: String,
}

impl Matcher {
    /// The pattern this matcher was compiled from.
    pub closed spec fn pattern(&self) -> Seq<char> {
        self.pattern@
    }

    /// Relies on `regex::Regex::new`: compiles `pattern`, returning `None`
    /// exactly when the pattern is not a valid regular expression.
    #[verifier::external_body]
    pub fn new(pattern: &str) -> (r: Option<Matcher>)
        ensures
            r is Some <==> regex_compiles(pattern@),
            r matches Some(m) ==> m.pattern() == pattern@,
    {
        match regex::Regex::new(pattern) {
            Ok(re) => Some(Matcher { re, pattern: pattern.to_owned() }),
            Err(_) => None,
        }
    }

    /// Relies on `regex::Regex::is_match`: whether the compiled pattern
    /// matches anywhere in `text`.
    #[verifier::external_body]
    pub(crate) fn is_match(&self, text: &str) -> (b: bool)
        ensures
            b == regex_matches(self.pattern(), text@),
    {
        self.re.is_match(text)
    }
}

} // verus!
