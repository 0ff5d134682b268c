//! The configuration: the browsers and the rules, as one JSON document with
//! a section for each.
//!
//! Reading JSON is the `json` crate's work. What this module adds is the
//! shape: both sections must be there, the rules keep the order in which the
//! document lists them, and every value counts as the text it prints as.
//!
//! One kind of text is turned away before the parser sees it. The parser
//! counts the digits of a fraction in a 16-bit exponent, and a fraction that
//! goes on in zeros long enough takes the count past its end. No
//! configuration needs such a number, so a text with that many zeros in a
//! row counts as malformed.

use vstd::prelude::*;
use vstd::std_specs::iter::IteratorSpec;
use crate::browsers::{catalogue, BrowserMap, BrowserModel};
use crate::failure::{Failure, FailureModel, Section};
use crate::rules::{RuleModel, RuleTable};

verus! {

/// A JSON value of the `json` crate. Nothing of its inside is known here.
#[verifier::external_type_specification]
#[verifier::external_body]
pub struct ExJsonValue(json::JsonValue);

/// The `json` crate's parse error. Nothing of its inside is known here.
#[verifier::external_type_specification]
#[verifier::external_body]
pub struct ExJsonError(json::Error);

/// What `json::parse` returns for a text.
pub uninterp spec fn parsed(text: Seq<char>) -> Result<json::JsonValue, json::Error>;

/// What indexing a JSON value by a member's name returns.
pub uninterp spec fn member_of(document: json::JsonValue, name: Seq<char>) -> json::JsonValue;

/// Whether `JsonValue::is_null` holds of a JSON value.
pub uninterp spec fn is_null_value(value: json::JsonValue) -> bool;

/// The entries that `JsonValue::entries` walks through, each as its key and
/// the text that its value prints as.
pub uninterp spec fn entries_of(value: json::JsonValue) -> Seq<(Seq<char>, Seq<char>)>;

/// The number of zeros in a row at which a text is no longer handed to the parser.
pub const ZERO_RUN_LIMIT: usize = 32000;

/// The `count` characters of `text` from `start` on are all the digit zero.
pub open spec fn zeros_from(text: Seq<char>, start: int, count: int) -> bool {
    &&& 0 <= start
    &&& start + count <= text.len()
    &&& forall|i: int| start <= i < start + count ==> text[i] == '0'
}

/// Somewhere in `text` stand `count` zeros in a row.
pub open spec fn has_zero_run(text: Seq<char>, count: int) -> bool {
    exists|start: int| zeros_from(text, start, count)
}

/// The text is one that the parser is trusted with: it holds no run of
/// [`ZERO_RUN_LIMIT`] zeros.
pub open spec fn parsable(text: Seq<char>) -> bool {
    !has_zero_run(text, ZERO_RUN_LIMIT as int)
}

/// How many zeros in a row end just before position `end`.
pub open spec fn zeros_before(text: Seq<char>, end: int) -> nat
    decreases end,
{
    if end <= 0 || end > text.len() || text[end - 1] != '0' {
        0
    } else {
        1 + zeros_before(text, end - 1)
    }
}

/// Where at least `count` zeros end before `end`, the `count` characters before `end` are zeros.
proof fn lemma_zeros_before_are_zeros(text: Seq<char>, end: int, count: int)
    requires
        0 <= count <= zeros_before(text, end),
    ensures
        count > 0 ==> zeros_from(text, end - count, count),
    decreases count,
{
    if count > 0 {
        lemma_zeros_before_are_zeros(text, end - 1, count - 1);
        if count > 1 {
            assert(zeros_from(text, end - count, count - 1));
        }
    }
}

/// Where `count` characters from `start` on are zeros, at least `count` zeros end after them.
proof fn lemma_zeros_are_counted(text: Seq<char>, start: int, count: int)
    requires
        0 <= count,
        zeros_from(text, start, count),
    ensures
        zeros_before(text, start + count) >= count,
    decreases count,
{
    if count > 0 {
        assert(text[start + count - 1] == '0');
        assert(zeros_from(text, start, count - 1));
        lemma_zeros_are_counted(text, start, count - 1);
    }
}

/// Tells whether `text` holds [`ZERO_RUN_LIMIT`] zeros in a row.
pub fn has_long_zero_run(text: &str) -> (found: bool)
    ensures
        found == has_zero_run(text@, ZERO_RUN_LIMIT as int),
{
    let mut rest = text.chars();
    let mut run: usize = 0;
    let ghost mut seen: int = 0;
    loop
        invariant
            rest.obeys_prophetic_iter_laws(),
            0 <= seen <= text@.len(),
            rest.remaining() == text@.skip(seen),
            run == zeros_before(text@, seen),
            forall|end: int| 0 <= end <= seen ==> zeros_before(text@, end) < ZERO_RUN_LIMIT,
        decreases text@.len() - seen,
    {
        match rest.next() {
            None => {
                proof {
                    assert forall|start: int| !zeros_from(text@, start, ZERO_RUN_LIMIT as int) by {
                        if zeros_from(text@, start, ZERO_RUN_LIMIT as int) {
                            lemma_zeros_are_counted(text@, start, ZERO_RUN_LIMIT as int);
                        }
                    }
                }
                return false;
            },
            Some(next) => {
                proof {
                    assert(text@.skip(seen).drop_first() == text@.skip(seen + 1));
                    assert(text@[seen] == next);
                    seen = seen + 1;
                }
                if next == '0' {
                    run += 1;
                    if run >= ZERO_RUN_LIMIT {
                        proof {
                            lemma_zeros_before_are_zeros(text@, seen, ZERO_RUN_LIMIT as int);
                        }
                        return true;
                    }
                } else {
                    run = 0;
                }
            },
        }
    }
}

/// Calls `json::parse`. The contract only gives the result its name: the
/// same text always parses to the same value or the same error. The parser
/// subtracts one from a 16-bit exponent for every digit of a fraction, up to
/// some twenty digits past the first that is not a zero, and with overflow
/// checks on it stops the program where that runs out; the texts on which it
/// can are left out, with room to spare.
#[verifier::external_body]
fn parse_document(text: &str) -> (document: Result<json::JsonValue, json::Error>)
    requires
        parsable(text@),
    ensures
        document == parsed(text@),
{
    json::parse(text)
}

/// Indexes a JSON value by a member's name, `document[name]`. The contract
/// only gives the result its name. The crate hands out its null value where
/// `document` is no object or has no such member, so the call always returns.
#[verifier::external_body]
fn member<'a>(document: &'a json::JsonValue, name: &str) -> (value: &'a json::JsonValue)
    ensures
        *value == member_of(*document, name@),
{
    &document[name]
}

/// Calls `JsonValue::is_null`. The contract only gives the result its name.
#[verifier::external_body]
fn is_null(value: &json::JsonValue) -> (null: bool)
    ensures
        null == is_null_value(*value),
{
    value.is_null()
}

/// Walks `JsonValue::entries` and hands out each entry as two strings: the
/// key, and the value as its `Display` prints it. The contract only gives
/// that list its name.
#[verifier::external_body]
fn entries(value: &json::JsonValue) -> (pairs: Vec<(String, String)>)
    ensures
        pairs.deep_view() == entries_of(*value),
{
    value.entries().map(|(key, item)| (key.to_string(), item.to_string())).collect()
}

/// The browsers and the rules of one configuration.
#[derive(Debug)]
pub struct Config {
    pub browsers: BrowserMap,
    pub rules: RuleTable,
}

/// The mathematical content of a [`Config`].
pub struct ConfigModel {
    pub browsers: Map<Seq<char>, Seq<char>>,
    pub rules: Seq<RuleModel>,
}

impl View for Config {
    type V = ConfigModel;

    open spec fn view(&self) -> ConfigModel {
        ConfigModel { browsers: self.browsers@, rules: self.rules@ }
    }
}

/// The browsers that a section's entries declare: key and command.
pub open spec fn declared_browsers(entries: Seq<(Seq<char>, Seq<char>)>) -> Seq<BrowserModel> {
    entries.map_values(|entry: (Seq<char>, Seq<char>)| BrowserModel { key: entry.0, command: entry.1 })
}

/// The rules that a section's entries list: prefix and browser key, in order.
pub open spec fn listed_rules(entries: Seq<(Seq<char>, Seq<char>)>) -> Seq<RuleModel> {
    entries.map_values(|entry: (Seq<char>, Seq<char>)| RuleModel { prefix: entry.0, browser: entry.1 })
}

/// The configuration that two sections make, or the section that is missing;
/// where both are, it is the browsers that are reported.
pub open spec fn assembled(
    browsers: Option<Seq<(Seq<char>, Seq<char>)>>,
    rules: Option<Seq<(Seq<char>, Seq<char>)>>,
) -> Result<ConfigModel, FailureModel> {
    match (browsers, rules) {
        (None, _) => Err(FailureModel::ConfigSectionMissing(Section::Browsers)),
        (Some(_), None) => Err(FailureModel::ConfigSectionMissing(Section::Rules)),
        (Some(declared), Some(listed)) => Ok(
            ConfigModel { browsers: catalogue(declared_browsers(declared)), rules: listed_rules(listed) },
        ),
    }
}

/// The entries of the member called `name`, or `None` where the document
/// has no such member or holds null there.
pub open spec fn section_of(document: json::JsonValue, name: Seq<char>) -> Option<Seq<(Seq<char>, Seq<char>)>> {
    if is_null_value(member_of(document, name)) {
        None
    } else {
        Some(entries_of(member_of(document, name)))
    }
}

/// The configuration that the outcome of parsing makes.
pub open spec fn configured(document: Result<json::JsonValue, json::Error>) -> Result<ConfigModel, FailureModel> {
    match document {
        Err(_) => Err(FailureModel::ConfigMalformed),
        Ok(document) => assembled(
            section_of(document, Section::Browsers.title()),
            section_of(document, Section::Rules.title()),
        ),
    }
}

/// The configuration that a text makes: malformed where it holds too long a
/// run of zeros to be parsed, and else what its parsing makes.
pub open spec fn loaded(text: Seq<char>) -> Result<ConfigModel, FailureModel> {
    if parsable(text) {
        configured(parsed(text))
    } else {
        Err(FailureModel::ConfigMalformed)
    }
}

/// The mathematical content of the outcome of loading.
pub open spec fn outcome_model(outcome: Result<Config, Failure>) -> Result<ConfigModel, FailureModel> {
    match outcome {
        Ok(config) => Ok(config@),
        Err(failure) => Err(failure@),
    }
}

/// Builds the browser map that a section's entries declare.
fn collect_browsers(entries: &Vec<(String, String)>) -> (browsers: BrowserMap)
    ensures
        browsers@ == catalogue(declared_browsers(entries.deep_view())),
{
    let mut browsers = BrowserMap::new();
    let mut index: usize = 0;
    assert(declared_browsers(entries.deep_view()).take(0) =~= Seq::<BrowserModel>::empty());
    while index < entries.len()
        invariant
            index <= entries.len(),
            browsers@ == catalogue(declared_browsers(entries.deep_view()).take(index as int)),
        decreases entries.len() - index,
    {
        let entry = &entries[index];
        browsers.insert(entry.0.as_str(), entry.1.as_str());
        index += 1;
        proof {
            let declared = declared_browsers(entries.deep_view());
            assert(declared.take(index as int).drop_last() =~= declared.take(index - 1));
            assert(declared.take(index as int).last() == (BrowserModel { key: entry.0@, command: entry.1@ }));
        }
    }
    assert(declared_browsers(entries.deep_view()).take(index as int) =~= declared_browsers(entries.deep_view()));
    browsers
}

/// Builds the rule table that a section's entries list.
fn collect_rules(entries: &Vec<(String, String)>) -> (rules: RuleTable)
    ensures
        rules@ == listed_rules(entries.deep_view()),
{
    let mut rules = RuleTable::new();
    let mut index: usize = 0;
    while index < entries.len()
        invariant
            index <= entries.len(),
            rules@ == listed_rules(entries.deep_view()).take(index as int),
        decreases entries.len() - index,
    {
        let entry = &entries[index];
        rules.push(entry.0.as_str(), entry.1.as_str());
        index += 1;
        assert(rules@ =~= listed_rules(entries.deep_view()).take(index as int));
    }
    assert(listed_rules(entries.deep_view()).take(index as int) =~= listed_rules(entries.deep_view()));
    rules
}

/// Makes a configuration of its two sections, each given as its entries in
/// the document's order, or `None` where the document lacks it.
pub fn assemble(browsers: Option<Vec<(String, String)>>, rules: Option<Vec<(String, String)>>) -> (outcome: Result<
    Config,
    Failure,
>)
    ensures
        outcome_model(outcome) == assembled(
            match browsers {
                Some(entries) => Some(entries.deep_view()),
                None => None,
            },
            match rules {
                Some(entries) => Some(entries.deep_view()),
                None => None,
            },
        ),
{
    match browsers {
        None => Err(Failure::ConfigSectionMissing(Section::Browsers)),
        Some(declared) => match rules {
            None => Err(Failure::ConfigSectionMissing(Section::Rules)),
            Some(listed) => Ok(Config { browsers: collect_browsers(&declared), rules: collect_rules(&listed) }),
        },
    }
}

/// Reads one section out of a parsed document.
fn section(document: &json::JsonValue, which: Section) -> (entries: Option<Vec<(String, String)>>)
    ensures
        match entries {
            Some(pairs) => section_of(*document, which.title()) == Some(pairs.deep_view()),
            None => section_of(*document, which.title()) is None,
        },
{
    let value = member(document, which.name());
    if is_null(value) {
        None
    } else {
        Some(entries(value))
    }
}

/// Loads a configuration from the text of its document.
///
/// A text that is no JSON is malformed, and so is one with
/// [`ZERO_RUN_LIMIT`] zeros in a row. A document in which `browsers` or
/// `rules` is absent or null lacks that section.
pub fn load(text: &str) -> (outcome: Result<Config, Failure>)
    ensures
        outcome_model(outcome) == loaded(text@),
{
    if has_long_zero_run(text) {
        return Err(Failure::ConfigMalformed);
    }
    match parse_document(text) {
        Err(_) => Err(Failure::ConfigMalformed),
        Ok(document) => {
            let browsers = section(&document, Section::Browsers);
            let rules = section(&document, Section::Rules);
            assemble(browsers, rules)
        },
    }
}

} // verus!
