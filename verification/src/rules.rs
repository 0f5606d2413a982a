//! The rule table: which folder the files of an extension go to.

use vstd::prelude::*;
use vstd::string::*;

verus! {

/// The table that a list of pairs stands for: each pair maps its key to its
/// value, and of two pairs with one key the later counts.
pub open spec fn pairs_map(pairs: Seq<(Seq<char>, Seq<char>)>) -> Map<Seq<char>, Seq<char>>
    decreases pairs.len(),
{
    if pairs.len() == 0 {
        Map::empty()
    } else {
        pairs_map(pairs.drop_last()).insert(pairs.last().0, pairs.last().1)
    }
}

/// Whether some pair of `pairs` has `key`.
pub open spec fn has_key(pairs: Seq<(Seq<char>, Seq<char>)>, key: Seq<char>) -> bool {
    exists|i: int| 0 <= i < pairs.len() && (#[trigger] pairs[i]).0 == key
}

/// The keys of the table are the keys of the pairs.
pub proof fn lemma_pairs_map_keys(pairs: Seq<(Seq<char>, Seq<char>)>, key: Seq<char>)
    ensures
        pairs_map(pairs).contains_key(key) <==> has_key(pairs, key),
    decreases pairs.len(),
{
    if pairs.len() > 0 {
        let front = pairs.drop_last();
        lemma_pairs_map_keys(front, key);
        if has_key(pairs, key) {
            let i = choose|i: int| 0 <= i < pairs.len() && (#[trigger] pairs[i]).0 == key;
            if i < front.len() {
                assert(front[i].0 == key);
            }
        }
        if pairs_map(pairs).contains_key(key) {
            if key == pairs.last().0 {
                assert(pairs[pairs.len() - 1].0 == key);
            } else {
                let i = choose|i: int| 0 <= i < front.len() && (#[trigger] front[i]).0 == key;
                assert(pairs[i].0 == key);
            }
        }
    }
}

/// A key is mapped to the value of the last pair that has it.
pub proof fn lemma_pairs_map_value(pairs: Seq<(Seq<char>, Seq<char>)>, i: int)
    requires
        0 <= i < pairs.len(),
        forall|j: int| i < j < pairs.len() ==> pairs[j].0 != pairs[i].0,
    ensures
        pairs_map(pairs).contains_key(pairs[i].0),
        pairs_map(pairs)[pairs[i].0] == pairs[i].1,
    decreases pairs.len(),
{
    if i < pairs.len() - 1 {
        let front = pairs.drop_last();
        assert(front[i] == pairs[i]);
        assert forall|j: int| i < j < front.len() implies front[j].0 != front[i].0 by {
            assert(pairs[j].0 != pairs[i].0);
        }
        lemma_pairs_map_value(front, i);
        assert(pairs[pairs.len() - 1].0 != pairs[i].0);
    }
}

/// The pairs of texts that a list of pairs of strings holds.
pub open spec fn pair_views(entries: Seq<(String, String)>) -> Seq<(Seq<char>, Seq<char>)> {
    Seq::new(entries.len(), |i: int| (entries[i].0@, entries[i].1@))
}

/// A table from lookup keys to destination folders. A key is an extension
/// with its leading `.`, compared letter by letter; a destination is the
/// name of a folder inside the sorted directory. A key has one destination
/// at most: the one given last.
#[derive(Clone, Debug)]
pub struct RuleMap {
    entries: Vec<(String, String)>,
}

impl View for RuleMap {
    type V = Map<Seq<char>, Seq<char>>;

    closed spec fn view(&self) -> Map<Seq<char>, Seq<char>> {
        pairs_map(pair_views(self.entries@))
    }
}

impl RuleMap {
    /// The table without rules.
    pub fn new() -> (rules: RuleMap)
        ensures
            rules@ == Map::<Seq<char>, Seq<char>>::empty(),
    {
        let rules = RuleMap { entries: Vec::new() };
        assert(pair_views(rules.entries@) =~= Seq::empty());
        rules
    }

    /// Sends the files of `key` to `destination` from now on, whatever the
    /// table said of `key` before.
    pub fn insert(&mut self, key: String, destination: String)
        ensures
            final(self)@ == old(self)@.insert(key@, destination@),
    {
        let ghost before = pair_views(self.entries@);
        self.entries.push((key, destination));
        proof {
            let after = pair_views(self.entries@);
            assert(after.drop_last() =~= before);
        }
    }

    /// The destination that the table gives for `key`, if it gives one.
    pub fn get(&self, key: &str) -> (destination: Option<&String>)
        ensures
            match destination {
                Some(d) => self@.contains_key(key@) && self@[key@] == d@,
                None => !self@.contains_key(key@),
            },
    {
        let ghost pairs = pair_views(self.entries@);
        let wanted = key.to_owned();
        let n: usize = self.entries.len();
        let mut i: usize = n;
        while i > 0
            invariant
                i <= n,
                n == self.entries@.len(),
                pairs == pair_views(self.entries@),
                wanted@ == key@,
                forall|j: int| i <= j < n ==> pairs[j].0 != key@,
            decreases i,
        {
            i = i - 1;
            if self.entries[i].0 == wanted {
                proof {
                    assert(pairs[i as int].0 == key@);
                    lemma_pairs_map_value(pairs, i as int);
                }
                return Some(&self.entries[i].1);
            }
        }
        proof {
            lemma_pairs_map_keys(pairs, key@);
        }
        None
    }
}

/// The built-in table: text files, two kinds of images, and Rust sources.
pub open spec fn default_rules() -> Map<Seq<char>, Seq<char>> {
    map![
        ".txt"@ => "TextFiles"@,
        ".jpg"@ => "Images"@,
        ".png"@ => "Images"@,
        ".rs"@ => "RustCode"@,
    ]
}

/// The built-in table has rules for four extensions and for nothing else,
/// and sends both kinds of images to one folder.
pub proof fn lemma_default_rules()
    ensures
        default_rules().dom() =~= set![".txt"@, ".jpg"@, ".png"@, ".rs"@],
        default_rules()[".txt"@] == "TextFiles"@,
        default_rules()[".jpg"@] == "Images"@,
        default_rules()[".png"@] == "Images"@,
        default_rules()[".rs"@] == "RustCode"@,
{
    reveal_strlit(".txt");
    reveal_strlit(".jpg");
    reveal_strlit(".png");
    reveal_strlit(".rs");
    assert(".txt"@[1] == 't');
    assert(".jpg"@[1] == 'j');
    assert(".png"@[1] == 'p');
    assert(".rs"@.len() == 3);
}

/// Builds the built-in table.
pub fn define_default_rules() -> (rules: RuleMap)
    ensures
        rules@ == default_rules(),
{
    let mut rules = RuleMap::new();
    rules.insert(String::from_str(".txt"), String::from_str("TextFiles"));
    rules.insert(String::from_str(".jpg"), String::from_str("Images"));
    rules.insert(String::from_str(".png"), String::from_str("Images"));
    rules.insert(String::from_str(".rs"), String::from_str("RustCode"));
    rules
}

} // verus!
