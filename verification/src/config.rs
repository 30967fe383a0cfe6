//! The replacement table: labelled rules that map one domain to another.

use vstd::prelude::*;

verus! {

/// What a rule says, as mathematical values.
pub struct Rule {
    /// The domain that is looked for.
    pub source: Seq<char>,
    /// The domain that is put in its place.
    pub target: Seq<char>,
}

impl Rule {
    /// A rule is well formed when it names both of its domains.
    pub open spec fn wf(self) -> bool {
        self.source.len() > 0 && self.target.len() > 0
    }
}

/// One rewrite rule: URLs on the domain `replace` move to the domain `with`.
///
/// The domains are taken as they are written: nothing here holds them to the
/// form of a host name.
#[derive(Debug, PartialEq, Eq)]
pub struct Replacement {
    pub replace: String,
    pub with: String,
}

impl View for Replacement {
    type V = Rule;

    open spec fn view(&self) -> Rule {
        Rule { source: self.replace@, target: self.with@ }
    }
}

/// A rule together with the label it is filed under.
struct Entry {
    label: String,
    rule: Replacement,
}

/// The replacement table: well-formed rules filed under labels, no label
/// twice.
///
/// The rules keep the order in which their labels first came in, and that is
/// the order in which they are tried.
pub struct Config {
    entries: Vec<Entry>,
}

impl View for Config {
    type V = Seq<(Seq<char>, Rule)>;

    /// The table as pairs of label and rule, in order.
    closed spec fn view(&self) -> Seq<(Seq<char>, Rule)> {
        self.entries@.map_values(|e: Entry| (e.label@, e.rule@))
    }
}

/// The table that results from filing `rule` under `label` in `table`: the
/// rule takes the place of the one that had this label, or goes to the end.
pub open spec fn filed(table: Seq<(Seq<char>, Rule)>, label: Seq<char>, rule: Rule) -> Seq<
    (Seq<char>, Rule),
> {
    let labels = table.map_values(|p: (Seq<char>, Rule)| p.0);
    if labels.contains(label) {
        table.update(labels.index_of(label), (label, rule))
    } else {
        table.push((label, rule))
    }
}

impl Config {
    /// The labels, in order.
    pub open spec fn labels(&self) -> Seq<Seq<char>> {
        self@.map_values(|p: (Seq<char>, Rule)| p.0)
    }

    /// The rules, in the order in which they are tried.
    pub open spec fn rules(&self) -> Seq<Rule> {
        self@.map_values(|p: (Seq<char>, Rule)| p.1)
    }

    /// A table is well formed when no label occurs twice in it and each of
    /// its rules is well formed.
    pub open spec fn wf(&self) -> bool {
        &&& self.labels().no_duplicates()
        &&& forall|i: int| 0 <= i < self@.len() ==> (#[trigger] self.rules()[i]).wf()
    }

    /// A table without rules.
    pub fn new() -> (table: Config)
        ensures
            table@ == Seq::<(Seq<char>, Rule)>::empty(),
            table.wf(),
    {
        Config { entries: Vec::new() }
    }

    /// The number of rules.
    pub fn len(&self) -> (n: usize)
        ensures
            n == self@.len(),
    {
        self.entries.len()
    }

    /// The label of the rule at position `index`.
    pub fn label(&self, index: usize) -> (label: &String)
        requires
            index < self@.len(),
        ensures
            label@ == self@[index as int].0,
    {
        &self.entries[index].label
    }

    /// The rule at position `index`.
    pub fn rule(&self, index: usize) -> (rule: &Replacement)
        requires
            index < self@.len(),
        ensures
            rule@ == self@[index as int].1,
    {
        &self.entries[index].rule
    }

    /// Where the rule filed under `label` stands, if there is one.
    pub fn find(&self, label: &str) -> (found: Option<usize>)
        ensures
            match found {
                Some(i) => i < self@.len() && self@[i as int].0 == label@,
                None => !self.labels().contains(label@),
            },
    {
        let wanted = label.to_owned();
        let mut i: usize = 0;
        while i < self.entries.len()
            invariant
                i <= self.entries@.len(),
                wanted@ == label@,
                forall|k: int| 0 <= k < i ==> self@[k].0 != label@,
            decreases self.entries@.len() - i,
        {
            if self.entries[i].label == wanted {
                return Some(i);
            }
            i += 1;
        }
        None
    }

    /// Files `rule` under `label`.
    ///
    /// A rule already filed under that label is replaced where it stands and
    /// handed back; otherwise the new rule goes to the end.
    pub fn insert(&mut self, label: String, rule: Replacement) -> (previous: Option<Replacement>)
        requires
            old(self).wf(),
            rule@.wf(),
        ensures
            final(self).wf(),
            final(self)@ == filed(old(self)@, label@, rule@),
            match previous {
                Some(p) => old(self).labels().contains(label@) && p@ == old(self)@[old(
                    self,
                ).labels().index_of(label@)].1,
                None => !old(self).labels().contains(label@),
            },
    {
        let ghost before = self@;
        let ghost labels = self.labels();
        let ghost rules = self.rules();
        match self.find(label.as_str()) {
            Some(i) => {
                proof {
                    assert(labels[i as int] == label@);
                    assert(labels.index_of(label@) == i as int);
                }
                let old_entry = self.entries.remove(i);
                self.entries.insert(i, Entry { label, rule });
                proof {
                    assert(self@ =~= before.update(i as int, (label@, rule@)));
                    assert(self.labels() =~= labels);
                    assert(self.rules() =~= rules.update(i as int, rule@));
                }
                Some(old_entry.rule)
            },
            None => {
                self.entries.push(Entry { label, rule });
                proof {
                    assert(self@ =~= before.push((label@, rule@)));
                    assert(self.labels() =~= labels.push(label@));
                    assert(self.rules() =~= rules.push(rule@));
                }
                None
            },
        }
    }
}

} // verus!
