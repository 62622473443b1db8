//! The parameter values that the user has chosen for actions and not yet
//! sent: a mapping from an action's id to the staged text.

use crate::actions::{ActionInfo, ActionInfoView, ActionParamsInfo, ActionParamsView};
use crate::types::text_view;
use vstd::prelude::*;
use vstd::string::StringExecFns;

verus! {

/// The index of the first entry at or after `from` whose id is `id`; the
/// number of entries where there is none.
pub open spec fn first_at(entries: Seq<(Seq<char>, Seq<char>)>, id: Seq<char>, from: int) -> int
    decreases entries.len() - from,
{
    if from < 0 || from >= entries.len() {
        entries.len() as int
    } else if entries[from].0 == id {
        from
    } else {
        first_at(entries, id, from + 1)
    }
}

/// The staged value of `id` in a list of entries: that of the first entry
/// with this id.
pub open spec fn lookup(entries: Seq<(Seq<char>, Seq<char>)>, id: Seq<char>) -> Option<Seq<char>> {
    let at = first_at(entries, id, 0);
    if at < entries.len() {
        Some(entries[at].1)
    } else {
        None
    }
}

/// What `first_at` gives is the first entry with the id.
pub proof fn lemma_first_at(entries: Seq<(Seq<char>, Seq<char>)>, id: Seq<char>, from: int)
    requires
        0 <= from <= entries.len(),
    ensures
        from <= first_at(entries, id, from) <= entries.len(),
        first_at(entries, id, from) < entries.len() ==> entries[first_at(entries, id, from)].0
            == id,
        forall|j: int| from <= j < first_at(entries, id, from) ==> entries[j].0 != id,
    decreases entries.len() - from,
{
    if from < entries.len() && entries[from].0 != id {
        lemma_first_at(entries, id, from + 1);
    }
}

/// The first entry with the id is what `first_at` gives.
pub proof fn lemma_first_at_is(
    entries: Seq<(Seq<char>, Seq<char>)>,
    id: Seq<char>,
    from: int,
    at: int,
)
    requires
        0 <= from <= at <= entries.len(),
        at < entries.len() ==> entries[at].0 == id,
        forall|j: int| from <= j < at ==> entries[j].0 != id,
    ensures
        first_at(entries, id, from) == at,
    decreases at - from,
{
    if from < at {
        lemma_first_at_is(entries, id, from + 1, at);
    }
}

/// Writing a value to the first entry of an id changes the value of this
/// id and of no other.
pub proof fn lemma_lookup_update(
    entries: Seq<(Seq<char>, Seq<char>)>,
    at: int,
    id: Seq<char>,
    value: Seq<char>,
    other: Seq<char>,
)
    requires
        0 <= at < entries.len(),
        first_at(entries, id, 0) == at,
    ensures
        lookup(entries.update(at, (id, value)), other) == if other == id {
            Some(value)
        } else {
            lookup(entries, other)
        },
{
    let updated = entries.update(at, (id, value));
    lemma_first_at(entries, id, 0);
    lemma_first_at(entries, other, 0);
    lemma_first_at_is(updated, other, 0, first_at(entries, other, 0));
}

/// A new entry at the end, for an id that has none, gives this id a value
/// and changes no other.
pub proof fn lemma_lookup_push(
    entries: Seq<(Seq<char>, Seq<char>)>,
    id: Seq<char>,
    value: Seq<char>,
    other: Seq<char>,
)
    requires
        first_at(entries, id, 0) == entries.len(),
    ensures
        lookup(entries.push((id, value)), other) == if other == id {
            Some(value)
        } else {
            lookup(entries, other)
        },
{
    let pushed = entries.push((id, value));
    lemma_first_at(entries, id, 0);
    lemma_first_at(entries, other, 0);
    let at = first_at(entries, other, 0);
    if other == id || at < entries.len() {
        lemma_first_at_is(pushed, other, 0, at);
    } else {
        lemma_first_at_is(pushed, other, 0, at + 1);
    }
}

/// The value that an action starts with: the first option of an
/// enumeration, and the empty text otherwise.
pub open spec fn default_value(action: ActionInfoView) -> Seq<char> {
    match action.params {
        Some(ActionParamsView::Enumeration(options)) => if options.len() > 0 {
            options[0]
        } else {
            Seq::empty()
        },
        _ => Seq::empty(),
    }
}

/// The staged values, keyed by action id.
pub struct ActionInputs {
    entries: Vec<(String, String)>,
}

impl ActionInputs {
    /// The entries as pairs of id and value.
    pub closed spec fn entries(&self) -> Seq<(Seq<char>, Seq<char>)> {
        self.entries@.map_values(|entry: (String, String)| (entry.0@, entry.1@))
    }

    /// The staged value of an action, if it has one.
    pub open spec fn staged(&self, id: Seq<char>) -> Option<Seq<char>> {
        lookup(self.entries(), id)
    }

    /// No action has a staged value.
    pub fn new() -> (res: Self)
        ensures
            res.entries() == Seq::<(Seq<char>, Seq<char>)>::empty(),
            forall|id: Seq<char>| res.staged(id) is None,
    {
        let res = ActionInputs { entries: Vec::new() };
        assert(res.entries() =~= Seq::empty());
        res
    }

    fn position(&self, id: &String) -> (res: Option<usize>)
        ensures
            match res {
                Some(at) => at < self.entries.len() && first_at(self.entries(), id@, 0) == at,
                None => first_at(self.entries(), id@, 0) == self.entries.len(),
            },
    {
        let mut i: usize = 0;
        while i < self.entries.len()
            invariant
                i <= self.entries.len(),
                forall|j: int| 0 <= j < i ==> self.entries()[j].0 != id@,
            decreases self.entries.len() - i,
        {
            if self.entries[i].0 == *id {
                proof {
                    lemma_first_at_is(self.entries(), id@, 0, i as int);
                }
                return Some(i);
            }
            i += 1;
        }
        proof {
            lemma_first_at_is(self.entries(), id@, 0, i as int);
        }
        None
    }

    /// The staged value of an action, if it has one.
    pub fn get(&self, id: &str) -> (res: Option<String>)
        ensures
            text_view(res) == self.staged(id@),
    {
        let key = String::from_str(id);
        match self.position(&key) {
            Some(at) => Some(self.entries[at].1.clone()),
            None => None,
        }
    }

    /// Stages a value for an action, in place of the one it had. The other
    /// actions keep theirs.
    pub fn set(&mut self, id: &str, value: String)
        ensures
            forall|other: Seq<char>|
                #[trigger] final(self).staged(other) == if other == id@ {
                    Some(value@)
                } else {
                    old(self).staged(other)
                },
    {
        let key = String::from_str(id);
        let found = self.position(&key);
        let ghost before = self.entries();
        match found {
            Some(at) => {
                self.entries[at] = (key, value);
                assert(self.entries() =~= before.update(at as int, (id@, value@)));
                assert forall|other: Seq<char>|
                    #[trigger] self.staged(other) == if other == id@ {
                        Some(value@)
                    } else {
                        old(self).staged(other)
                    } by {
                    lemma_lookup_update(before, at as int, id@, value@, other);
                }
            },
            None => {
                self.entries.push((key, value));
                assert(self.entries() =~= before.push((id@, value@)));
                assert forall|other: Seq<char>|
                    #[trigger] self.staged(other) == if other == id@ {
                        Some(value@)
                    } else {
                        old(self).staged(other)
                    } by {
                    lemma_lookup_push(before, id@, value@, other);
                }
            },
        }
    }

    /// Gives an action its starting value, unless it has a value already:
    /// an enumeration starts with its first option, anything else with the
    /// empty text.
    pub fn stage_default(&mut self, action: &ActionInfo)
        ensures
            forall|other: Seq<char>|
                #[trigger] final(self).staged(other) == if other == action@.id && old(
                    self,
                ).staged(other) is None {
                    Some(default_value(action@))
                } else {
                    old(self).staged(other)
                },
    {
        if self.position(&action.id).is_none() {
            let value = match &action.params {
                Some(ActionParamsInfo::Enumeration(options)) => {
                    if options.len() > 0 {
                        options[0].clone()
                    } else {
                        String::new()
                    }
                },
                _ => String::new(),
            };
            self.set(action.id.as_str(), value);
        }
    }
}

} // verus!
