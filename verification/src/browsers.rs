//! The browsers that rules can name: a map from a short key to a command.
//!
//! Browsers that no rule names are welcome, and so are rules that name a
//! browser which is not here: a key is looked up only when a URL selects it.

use vstd::prelude::*;
use crate::text::same;

verus! {

/// One browser: the key that rules use for it, and the command that starts it.
#[derive(Debug, PartialEq, Eq)]
pub struct Browser {
    pub key: String,
    pub command: String,
}

/// The mathematical content of a [`Browser`].
pub struct BrowserModel {
    pub key: Seq<char>,
    pub command: Seq<char>,
}

impl View for Browser {
    type V = BrowserModel;

    open spec fn view(&self) -> BrowserModel {
        BrowserModel { key: self.key@, command: self.command@ }
    }
}

impl DeepView for Browser {
    type V = BrowserModel;

    open spec fn deep_view(&self) -> BrowserModel {
        self@
    }
}

/// The map that a list of declarations stands for: each declaration sets its
/// key, so that of two declarations of one key the later counts.
pub open spec fn catalogue(declared: Seq<BrowserModel>) -> Map<Seq<char>, Seq<char>>
    decreases declared.len(),
{
    if declared.len() == 0 {
        Map::empty()
    } else {
        catalogue(declared.drop_last()).insert(declared.last().key, declared.last().command)
    }
}

/// A map from browser key to command.
#[derive(Debug)]
pub struct BrowserMap {
    pub declared: Vec<Browser>,
}

impl View for BrowserMap {
    type V = Map<Seq<char>, Seq<char>>;

    open spec fn view(&self) -> Map<Seq<char>, Seq<char>> {
        catalogue(self.declared.deep_view())
    }
}

/// A key that no declaration from `from` on uses is found, or not, among the
/// declarations before `from`.
proof fn lemma_later_declarations_miss(declared: Seq<BrowserModel>, key: Seq<char>, from: int)
    requires
        0 <= from <= declared.len(),
        forall|i: int| from <= i < declared.len() ==> (#[trigger] declared[i]).key != key,
    ensures
        catalogue(declared).contains_key(key) == catalogue(declared.take(from)).contains_key(key),
        catalogue(declared).contains_key(key) ==> catalogue(declared)[key] == catalogue(declared.take(from))[key],
    decreases declared.len() - from,
{
    if from == declared.len() {
        assert(declared.take(from) =~= declared);
    } else {
        let shorter = declared.drop_last();
        assert(declared.last().key != key);
        assert(shorter.take(from) =~= declared.take(from));
        assert forall|i: int| from <= i < shorter.len() implies (#[trigger] shorter[i]).key != key by {
            assert(shorter[i] == declared[i]);
        }
        lemma_later_declarations_miss(shorter, key, from);
    }
}

impl BrowserMap {
    /// The map without any browser.
    pub fn new() -> (browsers: BrowserMap)
        ensures
            browsers@ == Map::<Seq<char>, Seq<char>>::empty(),
    {
        let browsers = BrowserMap { declared: Vec::new() };
        assert(browsers.declared.deep_view() =~= Seq::<BrowserModel>::empty());
        browsers
    }

    /// Declares a browser, in place of any other of the same key.
    pub fn insert(&mut self, key: &str, command: &str)
        ensures
            final(self)@ == old(self)@.insert(key@, command@),
    {
        self.declared.push(Browser { key: key.to_owned(), command: command.to_owned() });
        assert(self.declared.deep_view().drop_last() =~= old(self).declared.deep_view());
    }

    /// The command of the browser called `key`, if there is one.
    pub fn get<'a>(&'a self, key: &str) -> (command: Option<&'a str>)
        ensures
            match command {
                Some(found) => self@.contains_key(key@) && self@[key@] == found@,
                None => !self@.contains_key(key@),
            },
    {
        let ghost declared = self.declared.deep_view();
        let mut index: usize = self.declared.len();
        while index > 0
            invariant
                index <= self.declared.len(),
                declared == self.declared.deep_view(),
                forall|i: int| index <= i < declared.len() ==> (#[trigger] declared[i]).key != key@,
            decreases index,
        {
            index -= 1;
            let browser = &self.declared[index];
            if same(browser.key.as_str(), key) {
                proof {
                    lemma_later_declarations_miss(declared, key@, index + 1);
                    assert(declared.take(index + 1).drop_last() =~= declared.take(index as int));
                    assert(declared.take(index + 1).last() == browser@);
                }
                return Some(browser.command.as_str());
            }
        }
        proof {
            lemma_later_declarations_miss(declared, key@, 0);
            assert(declared.take(0) =~= Seq::<BrowserModel>::empty());
        }
        None
    }
}

} // verus!
