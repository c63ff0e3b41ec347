//! Highlight patterns: regular expressions that are compiled once and then
//! tried on the fields of every record.

use crate::text::texts;
use vstd::prelude::*;

verus! {

/// `regex::Regex`: a compiled regular expression.
#[verifier::external_type_specification]
#[verifier::external_body]
pub struct ExRegex(regex::Regex);

/// `regex::Error`: why a regular expression does not compile.
#[verifier::external_type_specification]
#[verifier::external_body]
pub struct ExRegexError(regex::Error);

/// A regular expression that was compiled with the default options. There is
/// no way to make one but to compile its text, so that the text alone says
/// what it matches.
pub struct Pattern {
    inner: regex::Regex,
}

/// Whether the compiler of regular expressions accepts `source` under the
/// default options.
pub uninterp spec fn pattern_compiles(source: Seq<char>) -> bool;

/// The text a pattern was compiled from.
pub uninterp spec fn pattern_source(pattern: Pattern) -> Seq<char>;

/// Whether the expression written as `source`, compiled with the default
/// options, matches somewhere in `text`.
pub uninterp spec fn pattern_matches(source: Seq<char>, text: Seq<char>) -> bool;

/// `regex::Regex::new`: compiles `source` with the default options. Whether
/// that succeeds depends on `source` alone, and the compiled expression
/// keeps the text it was compiled from (`regex::Regex::as_str`).
#[verifier::external_body]
fn compile(source: &str) -> (compiled: Result<Pattern, regex::Error>)
    ensures
        compiled is Ok <==> pattern_compiles(source@),
        compiled matches Ok(pattern) ==> pattern_source(pattern) == source@,
{
    match regex::Regex::new(source) {
        Ok(inner) => Ok(Pattern { inner }),
        Err(error) => Err(error),
    }
}

/// `regex::Regex::is_match`: whether the expression matches anywhere in
/// `text`. Every pattern was compiled with the default options, so that the
/// text it was compiled from and `text` decide.
#[verifier::external_body]
fn is_match(pattern: &Pattern, text: &str) -> (found: bool)
    ensures
        found == pattern_matches(pattern_source(*pattern), text@),
{
    pattern.inner.is_match(text)
}

/// The texts that patterns were compiled from.
pub open spec fn sources(patterns: Seq<Pattern>) -> Seq<Seq<char>> {
    patterns.map_values(|pattern: Pattern| pattern_source(pattern))
}

/// Those of `wanted` that compile, in their order.
pub open spec fn compilable(wanted: Seq<Seq<char>>) -> Seq<Seq<char>> {
    wanted.filter(|source: Seq<char>| pattern_compiles(source))
}

/// Whether one of the expressions written as `sources` matches in `text`.
pub open spec fn any_matches(sources: Seq<Seq<char>>, text: Seq<char>) -> bool {
    exists|i: int| 0 <= i < sources.len() && pattern_matches(#[trigger] sources[i], text)
}

/// Compiles each of `wanted` and appends those that compile to `patterns`.
/// One that does not compile is passed over.
pub fn compile_into(patterns: &mut Vec<Pattern>, wanted: &Vec<String>)
    ensures
        sources(final(patterns)@) == sources(old(patterns)@) + compilable(texts(wanted@)),
{
    let mut i: usize = 0;
    proof {
        reveal(Seq::filter);
        assert(texts(wanted@).take(0) == Seq::<Seq<char>>::empty());
        assert(sources(patterns@) == sources(old(patterns)@) + compilable(texts(wanted@).take(0)));
    }
    while i < wanted.len()
        invariant
            i <= wanted.len(),
            sources(patterns@) == sources(old(patterns)@) + compilable(
                texts(wanted@).take(i as int),
            ),
        decreases wanted.len() - i,
    {
        proof {
            reveal(Seq::filter);
            let next = texts(wanted@).take(i + 1);
            assert(next.drop_last() == texts(wanted@).take(i as int));
            assert(next.last() == wanted@[i as int]@);
        }
        let ghost before = patterns@;
        match compile(wanted[i].as_str()) {
            Ok(pattern) => {
                patterns.push(pattern);
                proof {
                    assert(sources(patterns@) == sources(before).push(wanted@[i as int]@));
                }
            },
            Err(_) => {},
        }
        i += 1;
    }
    proof {
        assert(texts(wanted@).take(wanted.len() as int) == texts(wanted@));
    }
}

/// Whether one of `patterns` matches somewhere in `text`.
pub fn matches_any(patterns: &Vec<Pattern>, text: &str) -> (found: bool)
    ensures
        found == any_matches(sources(patterns@), text@),
{
    let mut i: usize = 0;
    while i < patterns.len()
        invariant
            i <= patterns.len(),
            forall|k: int| 0 <= k < i ==> !pattern_matches(#[trigger] sources(patterns@)[k], text@),
        decreases patterns.len() - i,
    {
        if is_match(&patterns[i], text) {
            proof {
                assert(pattern_matches(sources(patterns@)[i as int], text@));
            }
            return true;
        }
        i += 1;
    }
    false
}

} // verus!
