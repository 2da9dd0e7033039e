//! The plain values that the views show and the store holds.

use vstd::prelude::*;

verus! {

/// The name of an entity.
pub type Label = String;

/// The name of one property of an entity.
pub type Descriptor = String;

/// The label that a relationship gives to its child.
pub type Role = String;

/// The year of a history item.
pub type Year = i32;

/// The day of a history item within its year. A history item may carry
/// no day; that is a value of its own, which can be listed and selected.
pub type Day = Option<i32>;

/// The moment at which a history item was written; it identifies the item.
pub type Timestamp = i64;

/// A directed relationship between two entities.
#[derive(Debug, PartialEq, Eq)]
pub struct EntityRelationship {
    pub parent: Label,
    pub child: Label,
    /// A relationship may exist without a role.
    pub role: Option<Role>,
}

/// The characters of an optional text.
pub open spec fn optional_text(text: Option<String>) -> Option<Seq<char>> {
    match text {
        Some(value) => Some(value@),
        None => None,
    }
}

/// Compares two texts character by character.
pub fn text_eq(a: &String, b: &String) -> (same: bool)
    ensures
        same == (a@ == b@),
{
    *a == *b
}

/// Compares two optional texts.
pub fn optional_text_eq(a: &Option<String>, b: &Option<String>) -> (same: bool)
    ensures
        same == (optional_text(*a) == optional_text(*b)),
{
    match (a, b) {
        (Some(x), Some(y)) => *x == *y,
        (None, None) => true,
        _ => false,
    }
}

/// A copy of an optional text.
pub fn clone_optional_text(text: &Option<String>) -> (copy: Option<String>)
    ensures
        copy == *text,
{
    match text {
        Some(value) => Some(value.clone()),
        None => None,
    }
}

/// Whether a list of texts holds a text of these characters.
pub open spec fn names(texts: Seq<String>, text: Seq<char>) -> bool {
    exists|i: int| 0 <= i < texts.len() && (#[trigger] texts[i])@ == text
}

/// The texts of a list, each once, in the order in which the list first
/// names them. Two texts are the same when their characters are.
pub open spec fn each_once(texts: Seq<String>) -> Seq<String>
    decreases texts.len(),
{
    if texts.len() == 0 {
        Seq::empty()
    } else {
        let before = each_once(texts.drop_last());
        if names(before, texts.last()@) {
            before
        } else {
            before.push(texts.last())
        }
    }
}

/// Whether no two texts of a list hold the same characters.
pub open spec fn all_differ(texts: Seq<String>) -> bool {
    forall|i: int, j: int|
        0 <= i < j < texts.len() ==> (#[trigger] texts[i])@ != (#[trigger] texts[j])@
}

/// Taking each text once leaves no text twice, and neither adds a name
/// nor loses one.
pub proof fn each_once_is_the_same_names_without_repeats(texts: Seq<String>)
    ensures
        all_differ(each_once(texts)),
        each_once(texts).len() <= texts.len(),
        forall|text: Seq<char>| names(each_once(texts), text) == names(texts, text),
    decreases texts.len(),
{
    if texts.len() > 0 {
        let before = each_once(texts.drop_last());
        each_once_is_the_same_names_without_repeats(texts.drop_last());
        assert forall|text: Seq<char>| names(each_once(texts), text) == names(texts, text) by {
            if names(texts, text) {
                let i = choose|i: int| 0 <= i < texts.len() && (#[trigger] texts[i])@ == text;
                if i < texts.len() - 1 {
                    assert(texts.drop_last()[i]@ == text);
                    assert(names(texts.drop_last(), text));
                    let k = choose|k: int| 0 <= k < before.len() && (#[trigger] before[k])@ == text;
                    assert(each_once(texts)[k]@ == text);
                } else if names(before, text) {
                } else {
                    assert(each_once(texts)[before.len() as int]@ == text);
                }
            }
            if names(each_once(texts), text) {
                let k = choose|k: int|
                    0 <= k < each_once(texts).len() && (#[trigger] each_once(texts)[k])@ == text;
                if k < before.len() {
                    assert(before[k]@ == text);
                    assert(names(texts.drop_last(), text));
                    let i = choose|i: int|
                        0 <= i < texts.drop_last().len() && (#[trigger] texts.drop_last()[i])@
                            == text;
                    assert(texts[i]@ == text);
                } else {
                    assert(texts[texts.len() - 1]@ == text);
                }
            }
        }
    }
}

/// A list in which all texts differ is left as it is: taking each text
/// once a second time changes nothing.
pub proof fn each_once_keeps_what_differs(texts: Seq<String>)
    requires
        all_differ(texts),
    ensures
        each_once(texts) == texts,
    decreases texts.len(),
{
    if texts.len() > 0 {
        each_once_keeps_what_differs(texts.drop_last());
        assert(texts.drop_last().push(texts.last()) =~= texts);
    }
}

/// Whether a list of texts holds a text of the same characters.
pub fn holds_text(texts: &Vec<String>, text: &String) -> (found: bool)
    ensures
        found == names(texts@, text@),
{
    let mut i: usize = 0;
    while i < texts.len()
        invariant
            i <= texts.len(),
            forall|j: int| 0 <= j < i ==> (#[trigger] texts@[j])@ != text@,
        decreases texts.len() - i,
    {
        if text_eq(&texts[i], text) {
            return true;
        }
        i += 1;
    }
    false
}

/// The texts of a list, each once, in the order in which the list first
/// names them.
pub fn each_once_of(texts: Vec<String>) -> (chosen: Vec<String>)
    ensures
        chosen@ == each_once(texts@),
{
    let mut chosen: Vec<String> = Vec::new();
    for text in it: texts.into_iter()
        invariant
            it.seq() == texts@,
            chosen@ == each_once(texts@.take(it.index())),
    {
        assert(texts@.take(it.index() + 1).drop_last() =~= texts@.take(it.index()));
        if !holds_text(&chosen, &text) {
            chosen.push(text);
        }
    }
    assert(texts@.take(texts@.len() as int) =~= texts@);
    chosen
}

impl Clone for EntityRelationship {
    fn clone(&self) -> (copy: Self)
        ensures
            copy == *self,
    {
        EntityRelationship {
            parent: self.parent.clone(),
            child: self.child.clone(),
            role: clone_optional_text(&self.role),
        }
    }
}

} // verus!
