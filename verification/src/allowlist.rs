//! Which backends may be proxied to.
//!
//! The allowlist is a set of regular expressions. A backend may be proxied to if
//! one of them matches somewhere in its URL.
use crate::text::texts;
use regex::RegexSet;
use vstd::prelude::*;
use vstd::string::*;

verus! {

/// The type of a set of regular expressions in the `regex` crate.
#[verifier::external_type_specification]
#[verifier::external_body]
pub struct ExRegexSet(regex::RegexSet);

/// Why regular expressions could not be compiled.
#[verifier::external_type_specification]
#[verifier::external_body]
pub struct ExRegexError(regex::Error);

/// What a set of regular expressions holds: the texts in which it finds a match.
pub uninterp spec fn accepted_by(allowlist: RegexSet) -> Set<Seq<char>>;

/// Whether the regular expression `pattern` matches somewhere in `text`.
pub uninterp spec fn regex_matches(pattern: Seq<char>, text: Seq<char>) -> bool;

/// Whether one of the regular expressions matches somewhere in `text`.
pub open spec fn some_matches(patterns: Seq<Seq<char>>, text: Seq<char>) -> bool {
    exists|i: int| 0 <= i < patterns.len() && #[trigger] regex_matches(patterns[i], text)
}

/// Whether `head` stands somewhere in `text` and `tail` somewhere after it, with no
/// line break between the two.
pub open spec fn stands_before(head: Seq<char>, tail: Seq<char>, text: Seq<char>) -> bool {
    exists|before: Seq<char>, between: Seq<char>, after: Seq<char>|
        text == #[trigger] (before + head + between + tail + after) && !between.contains('\n')
}

/// Whether `pattern`, where it is two escaped texts with `.*` after each of them,
/// matches in `text` if and only if the first of these stands before the second.
pub open spec fn wildcards_stand_for_a_line(pattern: Seq<char>, text: Seq<char>) -> bool {
    forall|head: Seq<char>, tail: Seq<char>|
        pattern == #[trigger] (escaped(head) + ".*"@ + escaped(tail) + ".*"@) ==> regex_matches(
            pattern,
            text,
        ) == stands_before(head, tail, text)
}

/// `RegexSet::new`: a set that finds a match in a text if and only if one of
/// `patterns` matches there. There is a set for the empty list. Other lists are
/// turned down where one of the regular expressions is not valid, or where all of
/// them together take more memory than the crate allows; which lists these are is
/// not stated. In a regular expression an escaped text stands for itself, a dot for
/// every character but a line break and a star for any number of these, and a match
/// may begin and end anywhere: what that comes to for two escaped texts with `.*`
/// after each is stated, other regular expressions are not.
#[verifier::external_body]
fn regex_set_new(patterns: &Vec<String>) -> (set: Result<RegexSet, regex::Error>)
    ensures
        set is Ok ==> forall|text: Seq<char>| #[trigger]
            accepted_by(set->Ok_0).contains(text) == exists|i: int|
            0 <= i < patterns@.len() && #[trigger] regex_matches(texts(patterns@)[i], text),
        patterns@.len() == 0 ==> set is Ok,
        set is Ok ==> forall|i: int, text: Seq<char>|
            0 <= i < patterns@.len() ==> #[trigger] wildcards_stand_for_a_line(
                texts(patterns@)[i],
                text,
            ),
{
    RegexSet::new(patterns)
}

/// `RegexSet::is_match`: whether the set finds a match in `text`.
pub assume_specification[ RegexSet::is_match ](allowlist: &RegexSet, text: &str) -> (found: bool)
    ensures
        found == accepted_by(*allowlist).contains(text@),
;

/// Whether `c` has a meaning of its own in a regular expression.
pub open spec fn is_meta_character(c: char) -> bool {
    ||| c == '\\' || c == '.' || c == '+' || c == '*' || c == '?' || c == '(' || c == ')'
    ||| c == '|' || c == '[' || c == ']' || c == '{' || c == '}' || c == '^' || c == '$'
    ||| c == '#' || c == '&' || c == '-' || c == '~'
}

/// `text` with a backslash before every character that has a meaning of its own.
pub open spec fn escaped(text: Seq<char>) -> Seq<char>
    decreases text.len(),
{
    if text.len() == 0 {
        Seq::empty()
    } else if is_meta_character(text.last()) {
        escaped(text.drop_last()).push('\\').push(text.last())
    } else {
        escaped(text.drop_last()).push(text.last())
    }
}

/// `regex::escape`: a regular expression for the text itself.
pub assume_specification[ regex::escape ](text: &str) -> (pattern: String)
    ensures
        pattern@ == escaped(text@),
;

/// The regular expression for a host name suffix: `https://`, any characters of one
/// line, `suffix` as it stands and a slash, anywhere in the text. That is so in the
/// URL of a secure server whose host name ends in `suffix`. It is also so where
/// `suffix` stands further on in the URL, before a later slash: any characters may
/// go before it, slashes included.
pub open spec fn suffix_pattern(suffix: Seq<char>) -> Seq<char> {
    "https://.*"@ + escaped(suffix) + "/.*"@
}

/// The regular expression for a host name suffix: `https://`, any characters of one
/// line, `suffix` as it stands and a slash, anywhere in the text. That is so in the
/// URL of a secure server whose host name ends in `suffix`. It is also so where
/// `suffix` stands further on in the URL, before a later slash: any characters may
/// go before it, slashes included.
pub fn host_suffix_pattern(suffix: &str) -> (pattern: String)
    ensures
        pattern@ == suffix_pattern(suffix@),
        pattern@ == "https://.*"@ + escaped(suffix@) + "/.*"@,
{
    "https://.*".to_owned().concat(regex::escape(suffix).as_str()).concat("/.*")
}

proof fn lemma_escaped_parts(first: Seq<char>, second: Seq<char>)
    ensures
        escaped(first + second) == escaped(first) + escaped(second),
    decreases second.len(),
{
    let both = first + second;
    if second.len() == 0 {
        assert(both =~= first);
        assert(escaped(first) + escaped(second) =~= escaped(first));
    } else {
        lemma_escaped_parts(first, second.drop_last());
        assert(both.drop_last() =~= first + second.drop_last());
        assert(both.last() == second.last());
        assert(escaped(both) =~= escaped(first) + escaped(second));
    }
}

proof fn lemma_escaped_as_it_stands(text: Seq<char>)
    requires
        forall|i: int| 0 <= i < text.len() ==> !is_meta_character(#[trigger] text[i]),
    ensures
        escaped(text) == text,
    decreases text.len(),
{
    if text.len() > 0 {
        assert(!is_meta_character(text[text.len() - 1]));
        lemma_escaped_as_it_stands(text.drop_last());
        assert(escaped(text) =~= text);
    }
}

/// No two texts are escaped to the same regular expression.
pub proof fn law_escaped_texts_differ(a: Seq<char>, b: Seq<char>)
    requires
        a != b,
    ensures
        escaped(a) != escaped(b),
    decreases a.len() + b.len(),
{
    if escaped(a) == escaped(b) {
        if a.len() == 0 || b.len() == 0 {
            assert(a.len() > 0 ==> escaped(a).len() > 0);
            assert(b.len() > 0 ==> escaped(b).len() > 0);
            assert(a =~= b);
        } else {
            assert(escaped(a).last() == a.last());
            assert(escaped(b).last() == b.last());
            let shared = if is_meta_character(a.last()) {
                escaped(a).drop_last().drop_last()
            } else {
                escaped(a).drop_last()
            };
            assert(escaped(a.drop_last()) =~= shared);
            assert(escaped(b.drop_last()) =~= shared);
            if a.drop_last() == b.drop_last() {
                assert(a =~= a.drop_last().push(a.last()));
                assert(b =~= b.drop_last().push(b.last()));
            } else {
                law_escaped_texts_differ(a.drop_last(), b.drop_last());
            }
        }
    }
}

/// The regular expression for a host name suffix is the escaped suffix between two
/// texts that are the same for all suffixes, so that different suffixes have
/// different regular expressions. It is at the same time two escaped texts with `.*`
/// after each: `https://`, and the suffix with a slash.
pub proof fn law_suffix_pattern_is_three_texts(suffix: Seq<char>)
    ensures
        suffix_pattern(suffix) == "https://.*"@ + escaped(suffix) + "/.*"@,
        suffix_pattern(suffix) == escaped("https://"@) + ".*"@ + escaped(suffix + "/"@) + ".*"@,
        forall|other: Seq<char>| other != suffix ==> #[trigger] suffix_pattern(other)
            != suffix_pattern(suffix),
{
    reveal_strlit("https://.*");
    reveal_strlit("https://");
    reveal_strlit("/.*");
    reveal_strlit("/");
    reveal_strlit(".*");
    lemma_escaped_as_it_stands("https://"@);
    lemma_escaped_as_it_stands("/"@);
    lemma_escaped_parts(suffix, "/"@);
    assert("https://.*"@ =~= "https://"@ + ".*"@);
    assert("/.*"@ =~= "/"@ + ".*"@);
    assert(suffix_pattern(suffix) =~= escaped("https://"@) + ".*"@ + escaped(suffix + "/"@)
        + ".*"@);
    assert forall|other: Seq<char>| other != suffix implies #[trigger] suffix_pattern(other)
        != suffix_pattern(suffix) by {
        law_escaped_texts_differ(other, suffix);
        if suffix_pattern(other) == suffix_pattern(suffix) {
            let pattern = suffix_pattern(suffix);
            assert(pattern.subrange(10, pattern.len() - 3) =~= escaped(suffix));
            assert(pattern.subrange(10, pattern.len() - 3) =~= escaped(other));
        }
    }
}

/// Where wildcards and escaped texts mean what they should, a host name suffix allows
/// a text if and only if `https://` stands in it and the suffix with a slash after
/// it on the same line: so every URL of a secure server whose host name ends in the
/// suffix.
pub proof fn law_suffix_allows_hosts_that_end_in_it(suffix: Seq<char>, text: Seq<char>)
    ensures
        wildcards_stand_for_a_line(suffix_pattern(suffix), text) ==> (regex_matches(
            suffix_pattern(suffix),
            text,
        ) <==> exists|before: Seq<char>, between: Seq<char>, after: Seq<char>|
            text == #[trigger] (before + "https://"@ + between + suffix + "/"@ + after)
                && !between.contains('\n')),
        forall|host: Seq<char>, path: Seq<char>|
            text == #[trigger] ("https://"@ + host + suffix + "/"@ + path) && !host.contains('\n')
                && wildcards_stand_for_a_line(suffix_pattern(suffix), text) ==> regex_matches(
                suffix_pattern(suffix),
                text,
            ),
{
    law_suffix_pattern_is_three_texts(suffix);
    let head = "https://"@;
    let tail = suffix + "/"@;
    if wildcards_stand_for_a_line(suffix_pattern(suffix), text) {
        assert(suffix_pattern(suffix) == escaped(head) + ".*"@ + escaped(tail) + ".*"@);
        assert(regex_matches(suffix_pattern(suffix), text) == stands_before(head, tail, text));
        assert forall|before: Seq<char>, between: Seq<char>, after: Seq<char>| #[trigger]
            (before + head + between + tail + after) == before + head + between + suffix + "/"@
                + after by {
            assert(before + head + between + tail + after =~= before + head + between + suffix
                + "/"@ + after);
        }
        if stands_before(head, tail, text) {
            let (before, between, after) = choose|
                before: Seq<char>,
                between: Seq<char>,
                after: Seq<char>,
            |
                text == #[trigger] (before + head + between + tail + after) && !between.contains(
                    '\n',
                );
            assert(text == before + head + between + suffix + "/"@ + after);
        }
        if exists|before: Seq<char>, between: Seq<char>, after: Seq<char>|
            text == #[trigger] (before + head + between + suffix + "/"@ + after)
                && !between.contains('\n') {
            let (before, between, after) = choose|
                before: Seq<char>,
                between: Seq<char>,
                after: Seq<char>,
            |
                text == #[trigger] (before + head + between + suffix + "/"@ + after)
                    && !between.contains('\n');
            assert(text == before + head + between + tail + after);
        }
        assert forall|host: Seq<char>, path: Seq<char>|
            text == #[trigger] (head + host + suffix + "/"@ + path) && !host.contains(
                '\n',
            ) implies regex_matches(suffix_pattern(suffix), text) by {
            let before = Seq::<char>::empty();
            assert(text =~= before + head + host + tail + path);
        }
    }
}

/// The regular expressions of `allowlist`, followed by the one that
/// [`host_suffix_pattern`] gives for each host name suffix.
pub fn allowlist_patterns(allowlist: Vec<String>, host_suffixes: &Vec<String>) -> (patterns: Vec<
    String,
>)
    ensures
        texts(patterns@) == texts(allowlist@) + texts(host_suffixes@).map_values(
            |suffix: Seq<char>| suffix_pattern(suffix),
        ),
        patterns@.len() == allowlist@.len() + host_suffixes@.len(),
        forall|i: int| 0 <= i < allowlist@.len() ==> #[trigger] patterns@[i]@ == allowlist@[i]@,
        forall|j: int|
            0 <= j < host_suffixes@.len() ==> patterns@[allowlist@.len() + j]@ == "https://.*"@
                + #[trigger] escaped(host_suffixes@[j]@) + "/.*"@,
{
    let mut patterns = allowlist;
    let ghost tail = texts(host_suffixes@).map_values(|suffix: Seq<char>| suffix_pattern(suffix));
    for i in 0..host_suffixes.len()
        invariant
            tail == texts(host_suffixes@).map_values(
                |suffix: Seq<char>| suffix_pattern(suffix),
            ),
            texts(patterns@) =~= texts(allowlist@) + tail.take(i as int),
    {
        let ghost before = patterns@;
        patterns.push(host_suffix_pattern(host_suffixes[i].as_str()));
        assert(texts(patterns@) =~= texts(before).push(tail[i as int]));
        assert(tail.take(i + 1) =~= tail.take(i as int).push(tail[i as int]));
    }
    assert(tail.take(host_suffixes@.len() as int) =~= tail);
    let ghost all = texts(allowlist@) + tail;
    assert(texts(patterns@).len() == all.len());
    assert forall|i: int| 0 <= i < allowlist@.len() implies #[trigger] patterns@[i]@
        == allowlist@[i]@ by {
        assert(texts(patterns@)[i] == all[i]);
    }
    assert forall|j: int| 0 <= j < host_suffixes@.len() implies patterns@[allowlist@.len() + j]@
        == "https://.*"@ + #[trigger] escaped(host_suffixes@[j]@) + "/.*"@ by {
        assert(texts(patterns@)[allowlist@.len() + j] == all[allowlist@.len() + j]);
        law_suffix_pattern_is_three_texts(host_suffixes@[j]@);
    }
    patterns
}

/// A list allows what one of its regular expressions matches in: one by itself what
/// that one matches in, and none at all nothing.
pub proof fn law_allowlist_allows_what_it_matches(pattern: Seq<char>, url: Seq<char>)
    ensures
        some_matches(seq![pattern], url) == regex_matches(pattern, url),
        !some_matches(Seq::empty(), url),
{
    let one = seq![pattern];
    if regex_matches(pattern, url) {
        assert(regex_matches(one[0], url));
    }
}

/// A URL is allowed by two lists put together if and only if one of them allows it.
pub proof fn law_allowlists_are_combined(
    first: Seq<Seq<char>>,
    second: Seq<Seq<char>>,
    url: Seq<char>,
)
    ensures
        some_matches(first + second, url) == (some_matches(first, url) || some_matches(
            second,
            url,
        )),
{
    let both = first + second;
    assert forall|i: int| 0 <= i < first.len() implies #[trigger] regex_matches(first[i], url)
        == regex_matches(both[i], url) by {}
    assert forall|i: int| 0 <= i < second.len() implies #[trigger] regex_matches(second[i], url)
        == regex_matches(both[first.len() + i], url) by {}
    if some_matches(both, url) {
        let i = choose|i: int| 0 <= i < both.len() && #[trigger] regex_matches(both[i], url);
        if i < first.len() {
            assert(regex_matches(first[i], url));
        } else {
            assert(regex_matches(second[i - first.len()], url));
        }
    }
}

/// The allowlist cannot be compiled.
pub struct AllowlistError {
    pub cause: regex::Error,
}

/// What the compilation of an allowlist comes to.
pub fn allowlist_or_error(set: Result<RegexSet, regex::Error>) -> (compiled: Result<
    RegexSet,
    AllowlistError,
>)
    ensures
        compiled == match set {
            Ok(set) => Ok::<RegexSet, AllowlistError>(set),
            Err(cause) => Err(AllowlistError { cause }),
        },
{
    match set {
        Ok(set) => Ok(set),
        Err(cause) => Err(AllowlistError { cause }),
    }
}

/// The allowlist made of the regular expressions in `allowlist` and of one for
/// each host name suffix. Without any of these it allows nothing.
pub fn compile_allowlist(allowlist: Vec<String>, host_suffixes: &Vec<String>) -> (compiled: Result<
    RegexSet,
    AllowlistError,
>)
    ensures
        compiled is Ok ==> forall|url: Seq<char>| #[trigger]
            accepted_by(compiled->Ok_0).contains(url) == some_matches(
                texts(allowlist@) + texts(host_suffixes@).map_values(
                    |suffix: Seq<char>| suffix_pattern(suffix),
                ),
                url,
            ),
        allowlist@.len() == 0 && host_suffixes@.len() == 0 ==> compiled is Ok && accepted_by(
            compiled->Ok_0,
        ) == Set::<Seq<char>>::empty(),
        compiled is Ok ==> forall|url: Seq<char>| #[trigger]
            accepted_by(compiled->Ok_0).contains(url) <==> {
                ||| exists|i: int|
                    0 <= i < allowlist@.len() && regex_matches(#[trigger] allowlist@[i]@, url)
                ||| exists|j: int, before: Seq<char>, between: Seq<char>, after: Seq<char>|
                    0 <= j < host_suffixes@.len() && url == #[trigger] (before + "https://"@
                        + between + host_suffixes@[j]@ + "/"@ + after) && !between.contains('\n')
            },
{
    let patterns = allowlist_patterns(allowlist, host_suffixes);
    assert(texts(patterns@).len() == patterns@.len());
    let set = regex_set_new(&patterns);
    assert(patterns@.len() == 0 ==> accepted_by(set->Ok_0) =~= Set::<Seq<char>>::empty());
    proof {
        if set is Ok {
            let accepted = accepted_by(set->Ok_0);
            let start = allowlist@.len() as int;
            assert forall|j: int, url: Seq<char>|
                0 <= j < host_suffixes@.len() implies regex_matches(
                texts(patterns@)[start + j],
                url,
            ) == #[trigger] regex_matches(suffix_pattern(host_suffixes@[j]@), url)
                && wildcards_stand_for_a_line(suffix_pattern(host_suffixes@[j]@), url) by {
                law_suffix_pattern_is_three_texts(host_suffixes@[j]@);
                assert(escaped(host_suffixes@[j]@) == escaped(host_suffixes@[j]@));
                assert(texts(patterns@)[start + j] == suffix_pattern(host_suffixes@[j]@));
                assert(wildcards_stand_for_a_line(texts(patterns@)[start + j], url));
            }
            assert forall|url: Seq<char>| #[trigger] accepted.contains(url) implies {
                ||| exists|i: int|
                    0 <= i < allowlist@.len() && regex_matches(#[trigger] allowlist@[i]@, url)
                ||| exists|j: int, before: Seq<char>, between: Seq<char>, after: Seq<char>|
                    0 <= j < host_suffixes@.len() && url == #[trigger] (before + "https://"@
                        + between + host_suffixes@[j]@ + "/"@ + after) && !between.contains('\n')
            } by {
                let k = choose|k: int|
                    0 <= k < patterns@.len() && #[trigger] regex_matches(texts(patterns@)[k], url);
                if k < start {
                    assert(patterns@[k]@ == allowlist@[k]@);
                    assert(regex_matches(allowlist@[k]@, url));
                } else {
                    let j = k - start;
                    let suffix = host_suffixes@[j]@;
                    assert(regex_matches(suffix_pattern(suffix), url));
                    law_suffix_allows_hosts_that_end_in_it(suffix, url);
                    let (before, between, after) = choose|
                        before: Seq<char>,
                        between: Seq<char>,
                        after: Seq<char>,
                    |
                        url == #[trigger] (before + "https://"@ + between + suffix + "/"@ + after)
                            && !between.contains('\n');
                    assert(url == before + "https://"@ + between + host_suffixes@[j]@ + "/"@
                        + after);
                }
            }
            assert forall|url: Seq<char>, i: int|
                0 <= i < allowlist@.len() && regex_matches(
                    #[trigger] allowlist@[i]@,
                    url,
                ) implies #[trigger] accepted.contains(url) by {
                assert(patterns@[i]@ == allowlist@[i]@);
                assert(regex_matches(texts(patterns@)[i], url));
            }
            assert forall|
                url: Seq<char>,
                j: int,
                before: Seq<char>,
                between: Seq<char>,
                after: Seq<char>,
            |
                0 <= j < host_suffixes@.len() && url == #[trigger] (before + "https://"@ + between
                    + host_suffixes@[j]@ + "/"@ + after) && !between.contains(
                    '\n',
                ) implies #[trigger] accepted.contains(url) by {
                let suffix = host_suffixes@[j]@;
                law_suffix_allows_hosts_that_end_in_it(suffix, url);
                assert(url == before + "https://"@ + between + suffix + "/"@ + after);
                assert(regex_matches(suffix_pattern(suffix), url));
                assert(regex_matches(texts(patterns@)[start + j], url));
            }
        }
    }
    allowlist_or_error(set)
}

} // verus!
