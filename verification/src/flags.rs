//! Flags as text: the flags that are set, joined by ` | `, as a device
//! takes them for an action.

use crate::types::views;
use vstd::prelude::*;
use vstd::string::{StrSliceExecFns, StringExecFns};

verus! {

/// Whether `part` stands in `text` at index `at`.
pub open spec fn occurs_at(text: Seq<char>, part: Seq<char>, at: int) -> bool {
    0 <= at && at + part.len() <= text.len() && text.subrange(at, at + part.len()) == part
}

/// The first index at or after `from` at which `part` stands in `text`.
pub open spec fn first_occurrence(text: Seq<char>, part: Seq<char>, from: int) -> Option<int>
    decreases text.len() - from,
{
    if from < 0 || from + part.len() > text.len() {
        None
    } else if occurs_at(text, part, from) {
        Some(from)
    } else {
        proof {
            if from >= text.len() {
                assert(text.subrange(from, from + part.len()) =~= part);
            }
        }
        first_occurrence(text, part, from + 1)
    }
}

/// The pieces of `text` from index `start` on that a separator parts:
/// each piece ends where the separator next stands, and the next piece
/// begins behind it.
pub open spec fn split_from(text: Seq<char>, separator: Seq<char>, start: int) -> Seq<Seq<char>>
    decreases text.len() - start,
    when 0 <= start <= text.len() && separator.len() > 0
{
    proof {
        lemma_first_occurrence(text, separator, start);
    }
    match first_occurrence(text, separator, start) {
        Some(at) => seq![text.subrange(start, at)] + split_from(
            text,
            separator,
            at + separator.len(),
        ),
        None => seq![text.subrange(start, text.len() as int)],
    }
}

/// The pieces of `text` that a separator parts.
pub open spec fn split(text: Seq<char>, separator: Seq<char>) -> Seq<Seq<char>> {
    split_from(text, separator, 0)
}

/// The pieces with the separator between each two.
pub open spec fn join(pieces: Seq<Seq<char>>, separator: Seq<char>) -> Seq<char>
    decreases pieces.len(),
{
    if pieces.len() == 0 {
        Seq::empty()
    } else if pieces.len() == 1 {
        pieces[0]
    } else {
        join(pieces.drop_last(), separator) + separator + pieces.last()
    }
}

/// The text between two flags.
pub open spec fn separator() -> Seq<char> {
    " | "@
}

/// Whether a flag is among the staged ones: the staged text, parted at
/// the separators, has a piece that is the flag.
pub open spec fn flag_is_set(current: Seq<char>, flag: Seq<char>) -> bool {
    split(current, separator()).contains(flag)
}

/// The staged flags after one flag was ticked or unticked. A ticked flag
/// goes to the end, behind a separator where something stands already. An
/// unticked flag leaves: the text is parted at the separators, the pieces
/// equal to the flag are dropped, and the rest is joined again.
pub open spec fn toggled(current: Seq<char>, flag: Seq<char>, checked: bool) -> Seq<char> {
    if checked {
        if current.len() == 0 {
            flag
        } else {
            current + separator() + flag
        }
    } else {
        join(split(current, separator()).filter(|piece: Seq<char>| piece != flag), separator())
    }
}

/// What `first_occurrence` finds: `part` stands there and nowhere between
/// `from` and there.
pub proof fn lemma_first_occurrence(text: Seq<char>, part: Seq<char>, from: int)
    requires
        0 <= from,
    ensures
        match first_occurrence(text, part, from) {
            Some(at) => from <= at && occurs_at(text, part, at) && forall|i: int|
                from <= i < at ==> !occurs_at(text, part, i),
            None => forall|i: int| from <= i ==> !occurs_at(text, part, i),
        },
    decreases text.len() - from,
{
    if from + part.len() <= text.len() && !occurs_at(text, part, from) {
        if from >= text.len() {
            assert(text.subrange(from, from + part.len()) =~= part);
        }
        lemma_first_occurrence(text, part, from + 1);
    }
}

/// The characters of a text.
fn chars_of(text: &str) -> (res: Vec<char>)
    ensures
        res@ == text@,
{
    let n = text.unicode_len();
    let mut res: Vec<char> = Vec::new();
    let mut i: usize = 0;
    while i < n
        invariant
            i <= n,
            n == text@.len(),
            res@ == text@.take(i as int),
        decreases n - i,
    {
        res.push(text.get_char(i));
        assert(res@ =~= text@.take(i + 1));
        i += 1;
    }
    assert(text@.take(n as int) =~= text@);
    res
}

/// Whether `part` stands in `text` at index `at`.
fn stands_at(text: &Vec<char>, part: &Vec<char>, at: usize) -> (res: bool)
    requires
        at + part.len() <= text.len(),
    ensures
        res == occurs_at(text@, part@, at as int),
{
    let mut i: usize = 0;
    while i < part.len()
        invariant
            i <= part.len(),
            at + part.len() <= text.len(),
            forall|j: int| 0 <= j < i ==> text[at + j] == part[j],
        decreases part.len() - i,
    {
        if text[at + i] != part[i] {
            assert(text@.subrange(at as int, at + part.len())[i as int] != part@[i as int]);
            return false;
        }
        i += 1;
    }
    assert(text@.subrange(at as int, at + part.len()) =~= part@);
    true
}

/// The first index at or after `from` at which `part` stands in `text`.
fn find_from(text: &Vec<char>, part: &Vec<char>, from: usize) -> (res: Option<usize>)
    ensures
        match res {
            Some(at) => first_occurrence(text@, part@, from as int) == Some(at as int) && from
                <= at && at + part.len() <= text.len(),
            None => first_occurrence(text@, part@, from as int) is None,
        },
{
    if part.len() > text.len() {
        return None;
    }
    let last = text.len() - part.len();
    let mut at: usize = from;
    while at <= last
        invariant
            from <= at,
            last == text.len() - part.len(),
            first_occurrence(text@, part@, from as int) == first_occurrence(
                text@,
                part@,
                at as int,
            ),
        decreases last + 1 - at,
    {
        if stands_at(text, part, at) {
            return Some(at);
        }
        if at == last {
            return None;
        }
        at += 1;
    }
    None
}

/// Parts a text at a separator that is not empty.
fn split_text(text: &str, by: &str) -> (res: Vec<String>)
    requires
        by@.len() > 0,
    ensures
        views(res@) == split(text@, by@),
{
    let chars = chars_of(text);
    let part = chars_of(by);
    let mut res: Vec<String> = Vec::new();
    let mut start: usize = 0;
    loop
        invariant
            chars@ == text@,
            part@ == by@,
            part.len() > 0,
            start <= chars.len(),
            split(text@, by@) == views(res@) + split_from(text@, by@, start as int),
        decreases chars.len() - start,
    {
        let ghost before = views(res@);
        match find_from(&chars, &part, start) {
            Some(at) => {
                res.push(String::from_str(text.substring_char(start, at)));
                assert(views(res@) =~= before.push(text@.subrange(start as int, at as int)));
                assert(before + (seq![text@.subrange(start as int, at as int)] + split_from(
                    text@,
                    by@,
                    at + part.len(),
                )) =~= views(res@) + split_from(text@, by@, at + part.len()));
                start = at + part.len();
            },
            None => {
                res.push(String::from_str(text.substring_char(start, chars.len())));
                assert(views(res@) =~= before + seq![
                    text@.subrange(start as int, text@.len() as int),
                ]);
                return res;
            },
        }
    }
}

/// Joins pieces with a separator between each two.
pub fn join_texts(pieces: &Vec<String>, with: &str) -> (res: String)
    ensures
        res@ == join(views(pieces@), with@),
{
    let mut res = String::new();
    let mut i: usize = 0;
    while i < pieces.len()
        invariant
            i <= pieces.len(),
            res@ == join(views(pieces@).take(i as int), with@),
        decreases pieces.len() - i,
    {
        let ghost done = views(pieces@).take(i as int);
        let ghost next = views(pieces@).take(i + 1);
        assert(next.drop_last() =~= done);
        assert(next.last() == pieces[i as int]@);
        if i > 0 {
            res.append(with);
        }
        res.append(pieces[i].as_str());
        assert(res@ =~= join(next, with@)) by {
            if i == 0 {
                assert(res@ =~= pieces[i as int]@);
            }
        }
        i += 1;
    }
    assert(views(pieces@).take(i as int) =~= views(pieces@));
    res
}

/// Whether a flag is among the staged ones. A flag whose name is only a
/// part of a staged flag's name is not.
pub fn is_flag_set(current: &str, flag: &str) -> (res: bool)
    ensures
        res == flag_is_set(current@, flag@),
        res == split(current@, separator()).contains(flag@),
{
    proof {
        reveal_strlit(" | ");
    }
    let pieces = split_text(current, " | ");
    let wanted = String::from_str(flag);
    let mut i: usize = 0;
    while i < pieces.len()
        invariant
            i <= pieces.len(),
            wanted@ == flag@,
            views(pieces@) == split(current@, separator()),
            forall|j: int| 0 <= j < i ==> views(pieces@)[j] != flag@,
        decreases pieces.len() - i,
    {
        if pieces[i] == wanted {
            assert(views(pieces@)[i as int] == flag@);
            return true;
        }
        i += 1;
    }
    false
}

/// Ticks or unticks a flag in the staged text.
pub fn toggle_flag(current: &str, flag: &str, checked: bool) -> (res: String)
    ensures
        res@ == toggled(current@, flag@, checked),
{
    proof {
        reveal_strlit(" | ");
    }
    if checked {
        let mut res = String::from_str(current);
        if current.unicode_len() > 0 {
            res.append(" | ");
        }
        res.append(flag);
        assert(res@ =~= toggled(current@, flag@, checked));
        res
    } else {
        let pieces = split_text(current, " | ");
        let wanted = String::from_str(flag);
        let mut kept: Vec<String> = Vec::new();
        let mut i: usize = 0;
        let ghost keep = |piece: Seq<char>| piece != flag@;
        while i < pieces.len()
            invariant
                i <= pieces.len(),
                wanted@ == flag@,
                keep == (|piece: Seq<char>| piece != flag@),
                views(kept@) == views(pieces@).take(i as int).filter(keep),
            decreases pieces.len() - i,
        {
            let ghost done = views(pieces@).take(i as int);
            let ghost next = views(pieces@).take(i + 1);
            assert(next =~= done.push(pieces[i as int]@));
            proof {
                done.lemma_filter_push(pieces[i as int]@, keep);
            }
            let ghost before = views(kept@);
            if pieces[i] != wanted {
                kept.push(pieces[i].clone());
                assert(views(kept@) =~= before.push(pieces[i as int]@));
            }
            i += 1;
        }
        assert(views(pieces@).take(i as int) =~= views(pieces@));
        join_texts(&kept, " | ")
    }
}

} // verus!
