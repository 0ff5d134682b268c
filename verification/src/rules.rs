//! The ordered rule table and first-match selection.
//!
//! A table is a sequence of (prefix, browser key) pairs. The order is the
//! whole policy: whoever writes the table puts the more specific prefixes
//! first, and selection never looks for a longer or better match.

use vstd::prelude::*;
use crate::text::starts_with;

verus! {

/// One routing rule: URLs that begin with `prefix` go to the browser named `browser`.
#[derive(Debug, PartialEq, Eq)]
pub struct Rule {
    pub prefix: String,
    pub browser: String,
}

/// The mathematical content of a [`Rule`].
pub struct RuleModel {
    pub prefix: Seq<char>,
    pub browser: Seq<char>,
}

impl RuleModel {
    /// A rule applies to a URL when its prefix is a literal prefix of the URL.
    pub open spec fn applies_to(self, url: Seq<char>) -> bool {
        self.prefix.is_prefix_of(url)
    }
}

impl View for Rule {
    type V = RuleModel;

    open spec fn view(&self) -> RuleModel {
        RuleModel { prefix: self.prefix@, browser: self.browser@ }
    }
}

impl Rule {
    /// Builds a rule from its two parts.
    pub fn new(prefix: &str, browser: &str) -> (rule: Rule)
        ensures
            rule@ == (RuleModel { prefix: prefix@, browser: browser@ }),
    {
        Rule { prefix: prefix.to_owned(), browser: browser.to_owned() }
    }

    /// Tells whether this rule applies to `url`.
    pub fn applies_to(&self, url: &str) -> (applies: bool)
        ensures
            applies == self@.applies_to(url@),
    {
        starts_with(url, self.prefix.as_str())
    }
}

/// The browser key that a table selects for a URL: that of the first rule, in
/// table order, that applies; `None` when no rule applies.
pub open spec fn selection(rules: Seq<RuleModel>, url: Seq<char>) -> Option<Seq<char>>
    decreases rules.len(),
{
    if rules.len() == 0 {
        None
    } else if rules[0].applies_to(url) {
        Some(rules[0].browser)
    } else {
        selection(rules.drop_first(), url)
    }
}

/// Rule `index` applies to `url` and no rule before it does.
pub open spec fn is_first_match(rules: Seq<RuleModel>, url: Seq<char>, index: int) -> bool {
    &&& 0 <= index < rules.len()
    &&& rules[index].applies_to(url)
    &&& forall|earlier: int| 0 <= earlier < index ==> !(#[trigger] rules[earlier]).applies_to(url)
}

/// No rule of the table applies to `url`.
pub open spec fn unmatched(rules: Seq<RuleModel>, url: Seq<char>) -> bool {
    forall|index: int| 0 <= index < rules.len() ==> !(#[trigger] rules[index]).applies_to(url)
}

/// An ordered table of rules. Prefixes and keys may repeat: an earlier rule
/// shadows every later one that would also apply.
#[derive(Debug)]
pub struct RuleTable {
    pub rules: Vec<Rule>,
}

impl View for RuleTable {
    type V = Seq<RuleModel>;

    open spec fn view(&self) -> Seq<RuleModel> {
        self.rules@.map_values(|rule: Rule| rule@)
    }
}

impl RuleTable {
    /// The empty table, which selects nothing.
    pub fn new() -> (table: RuleTable)
        ensures
            table@ == Seq::<RuleModel>::empty(),
    {
        let table = RuleTable { rules: Vec::new() };
        assert(table@ =~= Seq::<RuleModel>::empty());
        table
    }

    /// Adds a rule after all the rules already there.
    pub fn push(&mut self, prefix: &str, browser: &str)
        ensures
            final(self)@ == old(self)@.push(RuleModel { prefix: prefix@, browser: browser@ }),
    {
        self.rules.push(Rule::new(prefix, browser));
        assert(self@ =~= old(self)@.push(RuleModel { prefix: prefix@, browser: browser@ }));
    }

    /// The number of rules.
    pub fn len(&self) -> (count: usize)
        ensures
            count == self@.len(),
    {
        self.rules.len()
    }

    /// Selects the browser key for `url`: the key of the first rule whose
    /// prefix begins the URL, or `None` when the URL is unmatched.
    pub fn select<'a>(&'a self, url: &str) -> (chosen: Option<&'a str>)
        ensures
            match chosen {
                Some(key) => selection(self@, url@) == Some(key@),
                None => selection(self@, url@) is None,
            },
    {
        let mut index: usize = 0;
        assert(self@.skip(0) =~= self@);
        while index < self.rules.len()
            invariant
                index <= self.rules.len(),
                selection(self@, url@) == selection(self@.skip(index as int), url@),
            decreases self.rules.len() - index,
        {
            let rule = &self.rules[index];
            assert(self@.skip(index as int)[0] == rule@);
            if rule.applies_to(url) {
                return Some(rule.browser.as_str());
            }
            assert(self@.skip(index as int).drop_first() == self@.skip(index as int + 1));
            index += 1;
        }
        assert(self@.skip(index as int).len() == 0);
        None
    }
}

/// Selects the browser key for `url` from `rules`; see [`RuleTable::select`].
pub fn select<'a>(rules: &'a RuleTable, url: &str) -> (chosen: Option<&'a str>)
    ensures
        match chosen {
            Some(key) => selection(rules@, url@) == Some(key@),
            None => selection(rules@, url@) is None,
        },
{
    rules.select(url)
}

/// First match wins: when rule `index` applies and no earlier rule does, the
/// table selects that rule's key, whatever the later rules say.
pub proof fn law_first_match_wins(rules: Seq<RuleModel>, url: Seq<char>, index: int)
    requires
        is_first_match(rules, url, index),
    ensures
        selection(rules, url) == Some(rules[index].browser),
    decreases rules.len(),
{
    if index > 0 {
        assert(!rules[0].applies_to(url));
        let rest = rules.drop_first();
        assert forall|earlier: int| 0 <= earlier < index - 1 implies !(#[trigger] rest[earlier]).applies_to(url) by {
            assert(rest[earlier] == rules[earlier + 1]);
        }
        law_first_match_wins(rest, url, index - 1);
    }
}

/// A selected key always comes from the first rule that applies.
pub proof fn law_selected_key_is_first_match(rules: Seq<RuleModel>, url: Seq<char>) -> (index: int)
    requires
        selection(rules, url) is Some,
    ensures
        is_first_match(rules, url, index),
        selection(rules, url) == Some(rules[index].browser),
    decreases rules.len(),
{
    if rules[0].applies_to(url) {
        0
    } else {
        let rest = rules.drop_first();
        let inner = law_selected_key_is_first_match(rest, url);
        assert forall|earlier: int| 0 <= earlier < inner + 1 implies !(#[trigger] rules[earlier]).applies_to(url) by {
            if earlier > 0 {
                assert(rules[earlier] == rest[earlier - 1]);
            }
        }
        assert(rules[inner + 1] == rest[inner]);
        inner + 1
    }
}

/// A URL is unmatched exactly when no rule of the table applies to it.
pub proof fn law_unmatched_means_no_rule_applies(rules: Seq<RuleModel>, url: Seq<char>)
    ensures
        selection(rules, url) is None <==> unmatched(rules, url),
    decreases rules.len(),
{
    if rules.len() > 0 {
        let rest = rules.drop_first();
        law_unmatched_means_no_rule_applies(rest, url);
        if unmatched(rules, url) {
            assert(!rules[0].applies_to(url));
            assert forall|index: int| 0 <= index < rest.len() implies !(#[trigger] rest[index]).applies_to(url) by {
                assert(rest[index] == rules[index + 1]);
            }
        }
        if selection(rules, url) is None {
            assert forall|index: int| 0 <= index < rules.len() implies !(#[trigger] rules[index]).applies_to(url) by {
                if index > 0 {
                    assert(rules[index] == rest[index - 1]);
                }
            }
        }
    }
}

/// The empty table leaves every URL unmatched.
pub proof fn law_empty_table_matches_nothing(url: Seq<char>)
    ensures
        selection(Seq::<RuleModel>::empty(), url) is None,
{
}

/// Earlier rules shadow later ones: a table made of `front` followed by `back`
/// answers as `front` does wherever `front` matches, and as `back` does elsewhere.
pub proof fn law_earlier_rules_shadow_later(front: Seq<RuleModel>, back: Seq<RuleModel>, url: Seq<char>)
    ensures
        selection(front + back, url) == if selection(front, url) is Some {
            selection(front, url)
        } else {
            selection(back, url)
        },
    decreases front.len(),
{
    if front.len() == 0 {
        assert(front + back =~= back);
    } else {
        assert((front + back)[0] == front[0]);
        assert((front + back).drop_first() =~= front.drop_first() + back);
        law_earlier_rules_shadow_later(front.drop_first(), back, url);
    }
}

} // verus!
