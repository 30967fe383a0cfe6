//! The URL rewriter: decides whether a text is a URL on a configured domain
//! and, if so, gives the same URL on the domain that the rule names.
//!
//! Parsing and serialising URLs is the `url` crate's work. The rewriter rests
//! on two calls into it, whose results are named below, and proves the rest:
//! which rule applies, and what is handed back in each case.

use crate::config::{Config, Rule};
use url::Url;
use vstd::prelude::*;
use vstd::string::StringSliceAdditionalSpecFns;
use vstd::utf8::encode_utf8;

verus! {

/// The longest text, in bytes, that the rewriter rewrites, and the longest
/// domain that it puts into a URL: 2^28 bytes, a sixteenth of what 32 bits
/// count.
///
/// The `url` crate holds the length of a URL in 32 bits, and cannot give a
/// URL a host with which it would grow beyond that. The limit is a machine's:
/// it leaves the crate room for what it writes in another form than it read
/// it.
pub const MAX_LEN: usize = 0x1000_0000;

/// The length of `text` in bytes, as UTF-8.
pub open spec fn byte_len(text: Seq<char>) -> nat {
    encode_utf8(text).len()
}

/// Whether `Url::parse` accepts `text` as an absolute URL.
pub uninterp spec fn is_url(text: Seq<char>) -> bool;

/// What `Url::domain` returns for the URL that `Url::parse` makes of `text`:
/// the host, where the URL has one and it is a domain name.
pub uninterp spec fn url_domain(text: Seq<char>) -> Option<Seq<char>>;

/// The serialisation of the URL that `Url::parse` makes of `text` after
/// `Url::set_host` has put `host` into it; `None` where the text is no URL or
/// the URL does not take that host.
pub uninterp spec fn url_with_host(text: Seq<char>, host: Seq<char>) -> Option<Seq<char>>;

/// An optional string as an optional sequence of characters.
pub open spec fn text_of(s: Option<String>) -> Option<Seq<char>> {
    match s {
        Some(t) => Some(t@),
        None => None,
    }
}

/// Parses `text` with `Url::parse` and reads the result's `Url::domain`.
///
/// Trusted: the outer option tells whether the text parsed, the inner one is
/// the domain as the crate reports it, copied into a `String`.
#[verifier::external_body]
fn parse_domain(text: &str) -> (parsed: Option<Option<String>>)
    ensures
        parsed is Some <==> is_url(text@),
        parsed matches Some(domain) ==> text_of(domain) == url_domain(text@),
{
    match Url::parse(text) {
        Ok(url) => Some(url.domain().map(String::from)),
        Err(_) => None,
    }
}

/// Parses `text` with `Url::parse`, changes the host with `Url::set_host` and
/// serialises the result.
///
/// Trusted: the result is the crate's, `None` where either call fails. The
/// bounds, in bytes, keep the new serialisation within the crate's 32-bit
/// length, beyond which `set_host` panics.
#[verifier::external_body]
fn replace_host(text: &str, host: &str) -> (rewritten: Option<String>)
    requires
        byte_len(text@) <= MAX_LEN,
        byte_len(host@) <= MAX_LEN,
    ensures
        text_of(rewritten) == url_with_host(text@, host@),
{
    match Url::parse(text) {
        Ok(mut url) => match url.set_host(Some(host)) {
            Ok(()) => Some(url.to_string()),
            Err(_) => None,
        },
        Err(_) => None,
    }
}

/// Whether the rule at `index` is the first whose source domain is `domain`.
pub open spec fn is_first_match(domain: Seq<char>, rules: Seq<Rule>, index: int) -> bool {
    &&& 0 <= index < rules.len()
    &&& rules[index].source == domain
    &&& forall|j: int| 0 <= j < index ==> rules[j].source != domain
}

/// Whether some rule has `domain` as its source domain.
pub open spec fn has_match(domain: Seq<char>, rules: Seq<Rule>) -> bool {
    exists|i: int| 0 <= i < rules.len() && #[trigger] rules[i].source == domain
}

/// The position of the first rule whose source domain is `domain`.
pub open spec fn first_match(domain: Seq<char>, rules: Seq<Rule>) -> Option<int> {
    if has_match(domain, rules) {
        Some(choose|i: int| is_first_match(domain, rules, i))
    } else {
        None
    }
}

/// What the rewriter makes of `text` under `rules`.
///
/// A text that is no URL, a URL without a domain, and a domain that no rule
/// names give `None`. Otherwise the first rule that names the domain decides:
/// the result is the URL with that rule's target as its host, or `None` where
/// the URL does not take it. A text or a target of more than [`MAX_LEN`] bytes
/// is beyond what the machine is asked to handle, and gives `None`.
pub open spec fn rewrite(text: Seq<char>, rules: Seq<Rule>) -> Option<Seq<char>> {
    if byte_len(text) > MAX_LEN || !is_url(text) {
        None
    } else {
        match url_domain(text) {
            None => None,
            Some(domain) => match first_match(domain, rules) {
                None => None,
                Some(i) => if byte_len(rules[i].target) > MAX_LEN {
                    None
                } else {
                    url_with_host(text, rules[i].target)
                },
            },
        }
    }
}

/// A first match is the only one: `first_match` returns it.
pub proof fn lemma_first_match_is(domain: Seq<char>, rules: Seq<Rule>, index: int)
    requires
        is_first_match(domain, rules, index),
    ensures
        first_match(domain, rules) == Some(index),
{
    let chosen = choose|i: int| is_first_match(domain, rules, i);
    assert(is_first_match(domain, rules, chosen));
    if chosen < index {
        assert(rules[chosen].source != domain);
    } else if index < chosen {
        assert(rules[index].source != domain);
    }
}

/// Finds the first rule of `table` whose source domain is exactly `domain`.
pub fn find_rule(domain: &str, table: &Config) -> (found: Option<usize>)
    ensures
        match found {
            Some(i) => is_first_match(domain@, table.rules(), i as int),
            None => !has_match(domain@, table.rules()),
        },
        first_match(domain@, table.rules()) == match found {
            Some(i) => Some(i as int),
            None => None,
        },
{
    let wanted = domain.to_owned();
    let mut i: usize = 0;
    while i < table.len()
        invariant
            i <= table@.len(),
            wanted@ == domain@,
            forall|k: int| 0 <= k < i ==> table.rules()[k].source != domain@,
        decreases table@.len() - i,
    {
        if table.rule(i).replace == wanted {
            proof {
                lemma_first_match_is(domain@, table.rules(), i as int);
            }
            return Some(i);
        }
        i += 1;
    }
    None
}

/// Rewrites `text` under the rules of `table`: see [`rewrite`].
pub fn process(text: &str, table: &Config) -> (rewritten: Option<String>)
    ensures
        text_of(rewritten) == rewrite(text@, table.rules()),
{
    if text.as_bytes().len() > MAX_LEN {
        return None;
    }
    match parse_domain(text) {
        None => None,
        Some(None) => None,
        Some(Some(domain)) => match find_rule(domain.as_str(), table) {
            None => None,
            Some(i) => {
                let target = table.rule(i).with.as_str();
                if target.as_bytes().len() > MAX_LEN {
                    None
                } else {
                    replace_host(text, target)
                }
            },
        },
    }
}

/// A text that is no URL is never rewritten.
pub proof fn law_plain_text_is_left_alone(text: Seq<char>, rules: Seq<Rule>)
    requires
        !is_url(text),
    ensures
        rewrite(text, rules) is None,
{
}

/// A URL is not rewritten where it has no domain, or where no rule has its
/// domain as source domain.
pub proof fn law_foreign_url_is_left_alone(text: Seq<char>, rules: Seq<Rule>)
    requires
        is_url(text),
        url_domain(text) matches Some(domain) ==> !has_match(domain, rules),
    ensures
        rewrite(text, rules) is None,
{
}

/// A URL whose domain is the source domain of a rule is rewritten by the first
/// such rule: the result is that URL with the rule's target domain as host.
pub proof fn law_first_rule_decides(text: Seq<char>, rules: Seq<Rule>, index: int)
    requires
        byte_len(text) <= MAX_LEN,
        is_url(text),
        url_domain(text) matches Some(domain) && is_first_match(domain, rules, index),
        byte_len(rules[index].target) <= MAX_LEN,
    ensures
        rewrite(text, rules) == url_with_host(text, rules[index].target),
{
    lemma_first_match_is(url_domain(text)->Some_0, rules, index);
}

/// Where no two rules share a source domain, any rule whose source domain is
/// the URL's domain is the one that rewrites it.
pub proof fn law_matching_rule_decides(text: Seq<char>, rules: Seq<Rule>, index: int)
    requires
        byte_len(text) <= MAX_LEN,
        is_url(text),
        0 <= index < rules.len(),
        url_domain(text) == Some(rules[index].source),
        byte_len(rules[index].target) <= MAX_LEN,
        forall|i: int, j: int|
            0 <= i < j < rules.len() ==> rules[i].source != rules[j].source,
    ensures
        rewrite(text, rules) == url_with_host(text, rules[index].target),
{
    law_first_rule_decides(text, rules, index);
}

/// A rewritten URL is left alone when it comes round again, provided that the
/// domain it now has is no rule's source domain.
pub proof fn law_rewrite_settles(text: Seq<char>, rules: Seq<Rule>)
    requires
        rewrite(text, rules) matches Some(rewritten) && (url_domain(rewritten) matches Some(domain)
            ==> !has_match(domain, rules)),
    ensures
        rewrite(rewrite(text, rules)->Some_0, rules) is None,
{
}

/// Where no rule looks for the target domain of the rule that rewrote a URL,
/// and the rewritten URL has that target as its domain just as the rule
/// writes it, the rewritten URL is left alone when it comes round again.
pub proof fn law_distinct_domains_settle(text: Seq<char>, rules: Seq<Rule>, index: int)
    requires
        byte_len(text) <= MAX_LEN,
        is_url(text),
        url_domain(text) matches Some(domain) && is_first_match(domain, rules, index),
        byte_len(rules[index].target) <= MAX_LEN,
        url_with_host(text, rules[index].target) matches Some(rewritten) && url_domain(rewritten)
            == Some(rules[index].target),
        forall|i: int| 0 <= i < rules.len() ==> (#[trigger] rules[i]).source != rules[index].target,
    ensures
        rewrite(text, rules) == url_with_host(text, rules[index].target),
        rewrite(rewrite(text, rules)->Some_0, rules) is None,
{
    law_first_rule_decides(text, rules, index);
    law_rewrite_settles(text, rules);
}

/// Where some rule has `domain` as its source domain, one of them is the
/// first.
pub proof fn lemma_first_match_exists(domain: Seq<char>, rules: Seq<Rule>)
    requires
        has_match(domain, rules),
    ensures
        first_match(domain, rules) matches Some(i) && is_first_match(domain, rules, i),
{
    let some = choose|i: int| 0 <= i < rules.len() && #[trigger] rules[i].source == domain;
    lemma_first_match_before(domain, rules, some);
}

/// Where the rule at `index` has `domain` as its source domain, the first
/// rule that has stands at `index` or before it.
pub proof fn lemma_first_match_before(domain: Seq<char>, rules: Seq<Rule>, index: int)
    requires
        0 <= index < rules.len(),
        rules[index].source == domain,
    ensures
        exists|i: int| 0 <= i <= index && is_first_match(domain, rules, i),
    decreases index,
{
    if exists|j: int| 0 <= j < index && #[trigger] rules[j].source == domain {
        let j = choose|j: int| 0 <= j < index && #[trigger] rules[j].source == domain;
        lemma_first_match_before(domain, rules, j);
    } else {
        assert(is_first_match(domain, rules, index));
    }
}

/// Letter case counts: a rule whose source domain differs from a URL's domain,
/// be it only in the case of one letter, is never the rule that applies to
/// that domain.
pub proof fn law_case_counts(domain: Seq<char>, rules: Seq<Rule>, index: int)
    requires
        0 <= index < rules.len(),
        rules[index].source != domain,
    ensures
        !is_first_match(domain, rules, index),
        first_match(domain, rules) != Some(index),
{
    if has_match(domain, rules) {
        lemma_first_match_exists(domain, rules);
    }
}

} // verus!
