//! The JSON object that a request sends: its entries as a mathematical value,
//! the text that they make, and a writer that produces that text.

use vstd::prelude::*;
use vstd::string::*;
use crate::digits::{decimal, u64_text};
use crate::json::{document_text, json_string, number_text, numeral, quote, value_text};

verus! {

/// What an entry of the object holds.
pub enum Item {
    /// A string.
    Text(Seq<char>),
    /// An unsigned integer.
    Unsigned(nat),
    /// A number, integer or floating point.
    Decimal(serde_json::Number),
    /// A boolean.
    Flag(bool),
    /// An array of strings.
    Texts(Seq<Seq<char>>),
    /// An array of documents.
    Documents(Seq<serde_json::Value>),
}

/// One entry of the object: a key and what stands under it.
pub struct Entry {
    pub key: Seq<char>,
    pub item: Item,
}

/// The entry that an optional field makes: one if it is set, none if not.
pub open spec fn optional(key: Seq<char>, item: Option<Item>) -> Seq<Entry> {
    match item {
        Some(item) => seq![(Entry { key, item })],
        None => Seq::empty(),
    }
}

/// The items that stand under `key`, in their order: none where the key does
/// not occur, one where it occurs once.
pub open spec fn under(entries: Seq<Entry>, key: Seq<char>) -> Seq<Item>
    decreases entries.len(),
{
    if entries.len() == 0 {
        Seq::empty()
    } else if entries.last().key == key {
        under(entries.drop_last(), key).push(entries.last().item)
    } else {
        under(entries.drop_last(), key)
    }
}

/// Whether some entry stands under `key`.
pub open spec fn has_key(entries: Seq<Entry>, key: Seq<char>) -> bool {
    under(entries, key).len() > 0
}

/// The item of an optional field as a run: one item if it is set, none if not.
pub open spec fn present(item: Option<Item>) -> Seq<Item> {
    match item {
        Some(item) => seq![item],
        None => Seq::empty(),
    }
}

/// The items that the field `name` puts under `key`: its own, where `key` is
/// its name.
pub open spec fn found(name: Seq<char>, item: Option<Item>, key: Seq<char>) -> Seq<Item> {
    if name == key {
        present(item)
    } else {
        Seq::empty()
    }
}

/// What stands under a key of two runs of entries is what stands under it in
/// the first, then in the second.
pub proof fn under_concat(first: Seq<Entry>, second: Seq<Entry>, key: Seq<char>)
    ensures
        under(first + second, key) == under(first, key) + under(second, key),
    decreases second.len(),
{
    if second.len() == 0 {
        assert(first + second =~= first);
        assert(under(first, key) + under(second, key) =~= under(first, key));
    } else {
        let all = first + second;
        assert(all.drop_last() =~= first + second.drop_last());
        assert(all.last() == second.last());
        under_concat(first, second.drop_last(), key);
        if second.last().key == key {
            assert(under(first, key) + under(second.drop_last(), key).push(second.last().item)
                =~= (under(first, key) + under(second.drop_last(), key)).push(
                second.last().item,
            ));
        }
    }
}

/// What stands under a key of a single entry.
pub proof fn under_single(entry: Entry, key: Seq<char>)
    ensures
        under(seq![entry], key) == found(entry.key, Some(entry.item), key),
{
    let one = seq![entry];
    assert(one.drop_last() =~= Seq::<Entry>::empty());
    assert(under(one.drop_last(), key) =~= Seq::<Item>::empty());
    assert(one.last() == entry);
    if entry.key == key {
        assert(under(one, key) =~= seq![entry.item]);
    }
}

/// What stands under a key of the entry that an optional field makes.
pub proof fn under_optional(name: Seq<char>, item: Option<Item>, key: Seq<char>)
    ensures
        under(optional(name, item), key) == found(name, item, key),
{
    match item {
        Some(item) => {
            under_single(Entry { key: name, item }, key);
        },
        None => {},
    }
}

/// The views of a vector of strings.
pub open spec fn texts(items: Seq<String>) -> Seq<Seq<char>> {
    Seq::new(items.len(), |i: int| items[i]@)
}

/// The parts, with a comma between each two.
pub open spec fn joined(parts: Seq<Seq<char>>) -> Seq<char>
    decreases parts.len(),
{
    if parts.len() == 0 {
        Seq::empty()
    } else if parts.len() == 1 {
        parts[0]
    } else {
        joined(parts.drop_last()) + seq![','] + parts.last()
    }
}

/// The text of a boolean.
pub open spec fn flag_text(flag: bool) -> Seq<char> {
    if flag {
        seq!['t', 'r', 'u', 'e']
    } else {
        seq!['f', 'a', 'l', 's', 'e']
    }
}

/// The text of an array whose elements have the texts `parts`.
pub open spec fn array_text(parts: Seq<Seq<char>>) -> Seq<char> {
    seq!['['] + joined(parts) + seq![']']
}

/// The text of what an entry holds.
pub open spec fn item_text(item: Item) -> Seq<char> {
    match item {
        Item::Text(text) => json_string(text),
        Item::Unsigned(n) => decimal(n),
        Item::Decimal(number) => number_text(number),
        Item::Flag(flag) => flag_text(flag),
        Item::Texts(items) => array_text(Seq::new(items.len(), |i: int| json_string(items[i]))),
        Item::Documents(items) => array_text(Seq::new(items.len(), |i: int| value_text(items[i]))),
    }
}

/// The text of an entry: the key between quotes, a colon, the item. Keys are
/// written as they are: those of this library need no escaping.
pub open spec fn entry_text(entry: Entry) -> Seq<char> {
    seq!['"'] + entry.key + seq!['"', ':'] + item_text(entry.item)
}

/// The texts of the entries, in their order.
pub open spec fn entry_texts(entries: Seq<Entry>) -> Seq<Seq<char>> {
    Seq::new(entries.len(), |i: int| entry_text(entries[i]))
}

/// The text of the object: the entries in their order, between braces.
pub open spec fn object_text(entries: Seq<Entry>) -> Seq<char> {
    seq!['{'] + joined(entry_texts(entries)) + seq!['}']
}

/// Joining one more part puts a comma before it, unless it is the first.
pub proof fn joined_push(parts: Seq<Seq<char>>, part: Seq<char>)
    ensures
        joined(parts.push(part)) == if parts.len() == 0 {
            part
        } else {
            joined(parts) + seq![','] + part
        },
{
    let all = parts.push(part);
    assert(all.drop_last() =~= parts);
    assert(all.last() == part);
    assert(all[0] == if parts.len() == 0 { part } else { parts[0] });
}

/// A comma-separated run of parts in the making, after its opening text.
struct Run {
    text: String,
    empty: bool,
    head: Ghost<Seq<char>>,
    parts: Ghost<Seq<Seq<char>>>,
}

impl Run {
    spec fn wf(&self) -> bool {
        &&& self.text@ == self.head@ + joined(self.parts@)
        &&& self.empty == (self.parts@.len() == 0)
    }

    fn open(head: &str) -> (r: Run)
        ensures
            r.wf(),
            r.head@ == head@,
            r.parts@ == Seq::<Seq<char>>::empty(),
    {
        let r = Run {
            text: String::from_str(head),
            empty: true,
            head: Ghost(head@),
            parts: Ghost(Seq::empty()),
        };
        assert(r.text@ =~= r.head@ + joined(r.parts@));
        r
    }

    fn part(&mut self, part: &str)
        requires
            old(self).wf(),
        ensures
            final(self).wf(),
            final(self).head@ == old(self).head@,
            final(self).parts@ == old(self).parts@.push(part@),
    {
        proof {
            reveal_strlit(",");
            joined_push(self.parts@, part@);
        }
        if !self.empty {
            self.text.append(",");
        }
        self.text.append(part);
        self.empty = false;
        self.parts = Ghost(self.parts@.push(part@));
        assert(self.text@ =~= self.head@ + joined(self.parts@));
    }

    fn close(self, tail: &str) -> (r: String)
        requires
            self.wf(),
        ensures
            r@ == self.head@ + joined(self.parts@) + tail@,
    {
        let mut text = self.text;
        text.append(tail);
        text
    }
}

/// The text of a boolean.
fn flag(value: bool) -> (r: &'static str)
    ensures
        r@ == flag_text(value),
{
    proof {
        reveal_strlit("true");
        reveal_strlit("false");
    }
    let r = if value {
        "true"
    } else {
        "false"
    };
    assert(r@ =~= flag_text(value));
    r
}

/// The string literal for `text`.
fn literal(text: &str) -> (r: String)
    ensures
        r@ == json_string(text@),
{
    match quote(text) {
        Ok(r) => r,
        // Writing a string does not fail: this arm is never taken.
        Err(_) => String::new(),
    }
}

/// The array of the string literals for `items`.
fn literals(items: &Vec<String>) -> (r: String)
    ensures
        r@ == item_text(Item::Texts(texts(items@))),
{
    proof {
        reveal_strlit("[");
        reveal_strlit("]");
    }
    let ghost all = Seq::new(items@.len(), |i: int| json_string(texts(items@)[i]));
    let mut run = Run::open("[");
    let mut i: usize = 0;
    assert(run.head@ =~= seq!['[']);
    assert(run.parts@ =~= all.take(0));
    while i < items.len()
        invariant
            i <= items.len(),
            run.wf(),
            run.head@ == seq!['['],
            run.parts@ == all.take(i as int),
            all == Seq::new(items@.len(), |i: int| json_string(texts(items@)[i])),
        decreases items.len() - i,
    {
        let part = literal(items[i].as_str());
        run.part(part.as_str());
        assert(all.take(i + 1) =~= all.take(i as int).push(all[i as int]));
        i += 1;
    }
    assert(all.take(i as int) =~= all);
    run.close("]")
}

/// The array of the texts of `items`.
fn documents(items: &Vec<serde_json::Value>) -> (r: String)
    ensures
        r@ == item_text(Item::Documents(items@)),
{
    proof {
        reveal_strlit("[");
        reveal_strlit("]");
    }
    let ghost all = Seq::new(items@.len(), |i: int| value_text(items@[i]));
    let mut run = Run::open("[");
    let mut i: usize = 0;
    assert(run.head@ =~= seq!['[']);
    assert(run.parts@ =~= all.take(0));
    while i < items.len()
        invariant
            i <= items.len(),
            run.wf(),
            run.head@ == seq!['['],
            run.parts@ == all.take(i as int),
            all == Seq::new(items@.len(), |i: int| value_text(items@[i])),
        decreases items.len() - i,
    {
        let part = document_text(&items[i]);
        run.part(part.as_str());
        assert(all.take(i + 1) =~= all.take(i as int).push(all[i as int]));
        i += 1;
    }
    assert(all.take(i as int) =~= all);
    run.close("]")
}

/// A JSON object in the making: the entries written so far, and their text.
pub(crate) struct ObjectWriter {
    run: Run,
    entries: Ghost<Seq<Entry>>,
}

impl ObjectWriter {
    pub(crate) closed spec fn wf(&self) -> bool {
        &&& self.run.wf()
        &&& self.run.head@ == seq!['{']
        &&& self.run.parts@ == entry_texts(self.entries@)
    }

    /// The entries written so far.
    pub(crate) closed spec fn entries(&self) -> Seq<Entry> {
        self.entries@
    }

    /// An object without entries.
    pub(crate) fn new() -> (r: ObjectWriter)
        ensures
            r.wf(),
            r.entries() == Seq::<Entry>::empty(),
    {
        proof {
            reveal_strlit("{");
        }
        let r = ObjectWriter { run: Run::open("{"), entries: Ghost(Seq::empty()) };
        assert(r.run.head@ =~= seq!['{']);
        assert(r.run.parts@ =~= entry_texts(r.entries@));
        r
    }

    /// Writes one entry, whose item has the text `item`.
    fn entry(&mut self, key: &str, item: &str, Ghost(held): Ghost<Item>)
        requires
            old(self).wf(),
            item@ == item_text(held),
        ensures
            final(self).wf(),
            final(self).entries() == old(self).entries().push(Entry { key: key@, item: held }),
    {
        proof {
            reveal_strlit("\"");
            reveal_strlit("\":");
        }
        let mut part = String::from_str("\"");
        part.append(key);
        part.append("\":");
        part.append(item);
        let ghost entry = Entry { key: key@, item: held };
        assert(part@ =~= entry_text(entry));
        self.run.part(part.as_str());
        self.entries = Ghost(self.entries@.push(entry));
        assert(self.run.parts@ =~= entry_texts(self.entries@));
    }

    /// Writes a string under `key`.
    pub(crate) fn text(&mut self, key: &str, value: &str)
        requires
            old(self).wf(),
        ensures
            final(self).wf(),
            final(self).entries() == old(self).entries().push(
                Entry { key: key@, item: Item::Text(value@) },
            ),
    {
        let item = literal(value);
        self.entry(key, item.as_str(), Ghost(Item::Text(value@)));
    }

    /// Writes an unsigned integer under `key`.
    pub(crate) fn unsigned(&mut self, key: &str, value: u64)
        requires
            old(self).wf(),
        ensures
            final(self).wf(),
            final(self).entries() == old(self).entries().push(
                Entry { key: key@, item: Item::Unsigned(value as nat) },
            ),
    {
        let item = u64_text(value);
        self.entry(key, item.as_str(), Ghost(Item::Unsigned(value as nat)));
    }

    /// Writes a number under `key`.
    pub(crate) fn decimal(&mut self, key: &str, value: &serde_json::Number)
        requires
            old(self).wf(),
        ensures
            final(self).wf(),
            final(self).entries() == old(self).entries().push(
                Entry { key: key@, item: Item::Decimal(*value) },
            ),
    {
        let item = numeral(value);
        self.entry(key, item.as_str(), Ghost(Item::Decimal(*value)));
    }

    /// Writes a boolean under `key`.
    pub(crate) fn flag(&mut self, key: &str, value: bool)
        requires
            old(self).wf(),
        ensures
            final(self).wf(),
            final(self).entries() == old(self).entries().push(
                Entry { key: key@, item: Item::Flag(value) },
            ),
    {
        self.entry(key, flag(value), Ghost(Item::Flag(value)));
    }

    /// Writes an array of strings under `key`.
    pub(crate) fn texts(&mut self, key: &str, value: &Vec<String>)
        requires
            old(self).wf(),
        ensures
            final(self).wf(),
            final(self).entries() == old(self).entries().push(
                Entry { key: key@, item: Item::Texts(texts(value@)) },
            ),
    {
        let item = literals(value);
        self.entry(key, item.as_str(), Ghost(Item::Texts(texts(value@))));
    }

    /// Writes an array of documents under `key`.
    pub(crate) fn documents(&mut self, key: &str, value: &Vec<serde_json::Value>)
        requires
            old(self).wf(),
        ensures
            final(self).wf(),
            final(self).entries() == old(self).entries().push(
                Entry { key: key@, item: Item::Documents(value@) },
            ),
    {
        let item = documents(value);
        self.entry(key, item.as_str(), Ghost(Item::Documents(value@)));
    }

    /// Closes the object and gives its text.
    pub(crate) fn finish(self) -> (r: String)
        requires
            self.wf(),
        ensures
            r@ == object_text(self.entries()),
    {
        proof {
            reveal_strlit("}");
        }
        let r = self.run.close("}");
        assert(r@ =~= object_text(self.entries@));
        r
    }
}

} // verus!
