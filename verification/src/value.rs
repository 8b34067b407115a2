//! The tree of values that a sink prints under a name: null, booleans,
//! numbers, strings, arrays and objects, with the text that each renders to.

use crate::level::Level;
use crate::style::ansi_bold;
use crate::text::{decimal, signed_decimal, spaces, unsigned_decimal};
use vstd::prelude::*;
use vstd::string::*;

verus! {

/// A number of the tree.
#[derive(Clone, Debug)]
pub enum Number {
    /// A whole number that is not negative.
    Unsigned(u64),
    /// A whole number.
    Signed(i64),
    /// Any other number, as the numeral that stands for it.
    Numeral(String),
}

/// A value of the tree. The entries of an object keep their order.
#[derive(Debug)]
pub enum Value {
    Null,
    Bool(bool),
    Number(Number),
    String(String),
    Array(Vec<Value>),
    Object(Vec<(String, Value)>),
}

impl Number {
    /// The numeral of the number.
    pub open spec fn spec_text(self) -> Seq<char> {
        match self {
            Number::Unsigned(n) => decimal(n as int),
            Number::Signed(n) => decimal(n as int),
            Number::Numeral(text) => text@,
        }
    }

    /// The numeral of the number.
    pub fn text(&self) -> (text: String)
        ensures
            text@ == self.spec_text(),
    {
        match self {
            Number::Unsigned(n) => unsigned_decimal(*n),
            Number::Signed(n) => signed_decimal(*n),
            Number::Numeral(text) => text.clone(),
        }
    }
}

/// The word for a boolean.
pub open spec fn bool_text(b: bool) -> Seq<char> {
    if b {
        "true"@
    } else {
        "false"@
    }
}

/// Whether a sink with threshold `level` leaves null values out: it does
/// where the threshold is stricter than `Message`.
pub open spec fn hides_null(level: Level) -> bool {
    level.spec_rank() > Level::Message.spec_rank()
}

/// How deep arrays and objects are nested in `value`; 0 for a scalar.
pub open spec fn depth(value: Value) -> nat
    decreases value,
{
    match value {
        Value::Array(items) => 1 + items_depth(items@),
        Value::Object(entries) => 1 + entries_depth(entries@),
        _ => 0,
    }
}

/// The greatest depth among `items`.
pub open spec fn items_depth(items: Seq<Value>) -> nat
    decreases items,
{
    if items.len() == 0 {
        0
    } else {
        let rest = items_depth(items.drop_last());
        let last = depth(items.last());
        if last > rest {
            last
        } else {
            rest
        }
    }
}

/// The greatest depth among the values of `entries`.
pub open spec fn entries_depth(entries: Seq<(String, Value)>) -> nat
    decreases entries,
{
    if entries.len() == 0 {
        0
    } else {
        let rest = entries_depth(entries.drop_last());
        let last = depth(entries.last().1);
        if last > rest {
            last
        } else {
            rest
        }
    }
}

/// The text of `value` behind its name, for a sink that is indented by
/// `indent` blanks and has threshold `level`. A scalar is its text and a
/// newline. An array or object is a newline and then its members, one unit
/// of two blanks deeper.
pub open spec fn render_value(value: Value, indent: nat, level: Level) -> Seq<char>
    decreases value, 0nat,
{
    match value {
        Value::Null => "null\n"@,
        Value::Bool(b) => bool_text(b) + "\n"@,
        Value::Number(number) => number.spec_text() + "\n"@,
        Value::String(text) => text@ + "\n"@,
        Value::Array(items) => "\n"@ + render_items(items@, indent + 2, level),
        Value::Object(entries) => "\n"@ + render_entries(entries@, indent + 2, level),
    }
}

/// The members of an array: each under its index in square brackets.
pub open spec fn render_items(items: Seq<Value>, indent: nat, level: Level) -> Seq<char>
    decreases items, 0nat,
{
    if items.len() == 0 {
        Seq::empty()
    } else {
        render_items(items.drop_last(), indent, level) + render_item(
            items.len() - 1,
            items.last(),
            indent,
            level,
        )
    }
}

/// One member of an array, under its index.
pub open spec fn render_item(index: int, item: Value, indent: nat, level: Level) -> Seq<char>
    decreases item, 1nat,
{
    spaces(indent) + "["@ + decimal(index) + "]: "@ + render_value(item, indent, level)
}

/// The entries of an object: each under its key in bold. A null entry is
/// left out where the threshold hides nulls.
pub open spec fn render_entries(entries: Seq<(String, Value)>, indent: nat, level: Level) -> Seq<
    char,
>
    decreases entries, 0nat,
{
    if entries.len() == 0 {
        Seq::empty()
    } else {
        render_entries(entries.drop_last(), indent, level) + render_entry(
            entries.last().0@,
            entries.last().1,
            indent,
            level,
        )
    }
}

/// One entry of an object, under its key; nothing for a hidden null.
pub open spec fn render_entry(key: Seq<char>, value: Value, indent: nat, level: Level) -> Seq<char>
    decreases value, 1nat,
{
    if value is Null && hides_null(level) {
        Seq::empty()
    } else {
        spaces(indent) + ansi_bold(key) + ": "@ + render_value(value, indent, level)
    }
}

/// A value under a name, as a sink writes it: nothing for a hidden null,
/// else the indent, the name, a colon and the value's text. The name is
/// written as it is given; the caller styles it.
pub open spec fn render_named(name: Seq<char>, value: Value, indent: nat, level: Level) -> Seq<
    char,
> {
    if value is Null && hides_null(level) {
        Seq::empty()
    } else {
        spaces(indent) + name + ": "@ + render_value(value, indent, level)
    }
}

/// No member of an array is nested deeper than the array says.
pub proof fn lemma_item_depth(items: Seq<Value>, index: int)
    requires
        0 <= index < items.len(),
    ensures
        depth(items[index]) <= items_depth(items),
    decreases items.len(),
{
    if index < items.len() - 1 {
        lemma_item_depth(items.drop_last(), index);
    }
}

/// No entry of an object is nested deeper than the object says.
pub proof fn lemma_entry_depth(entries: Seq<(String, Value)>, index: int)
    requires
        0 <= index < entries.len(),
    ensures
        depth(entries[index].1) <= entries_depth(entries),
    decreases entries.len(),
{
    if index < entries.len() - 1 {
        lemma_entry_depth(entries.drop_last(), index);
    }
}

impl Value {
    /// Whether the value is null.
    pub fn is_null(&self) -> (null: bool)
        ensures
            null == (*self is Null),
    {
        match self {
            Value::Null => true,
            _ => false,
        }
    }

    /// How deep arrays and objects are nested in the value, stopping at
    /// `usize::MAX`.
    pub fn nesting(&self) -> (levels: usize)
        ensures
            levels == if depth(*self) < usize::MAX {
                depth(*self)
            } else {
                usize::MAX as nat
            },
        decreases *self,
    {
        match self {
            Value::Array(items) => {
                let mut deepest: usize = 0;
                let mut index: usize = 0;
                while index < items.len()
                    invariant
                        index <= items.len(),
                        *self == Value::Array(*items),
                        deepest == if items_depth(items@.take(index as int)) < usize::MAX {
                            items_depth(items@.take(index as int))
                        } else {
                            usize::MAX as nat
                        },
                    decreases items.len() - index,
                {
                    proof {
                        assert(items@.take(index + 1).drop_last() =~= items@.take(index as int));
                    }
                    let item = &items[index];
                    proof {
                        assert(decreases_to!(*self => self->Array_0));
                        assert(decreases_to!(*items => items[index as int]));
                        assert(decreases_to!(*self => *item));
                    }
                    let inner: usize = item.nesting();
                    if inner > deepest {
                        deepest = inner;
                    }
                    index = index + 1;
                }
                proof {
                    assert(items@.take(items.len() as int) =~= items@);
                }
                deepest.saturating_add(1)
            },
            Value::Object(entries) => {
                let mut deepest: usize = 0;
                let mut index: usize = 0;
                while index < entries.len()
                    invariant
                        index <= entries.len(),
                        *self == Value::Object(*entries),
                        deepest == if entries_depth(entries@.take(index as int)) < usize::MAX {
                            entries_depth(entries@.take(index as int))
                        } else {
                            usize::MAX as nat
                        },
                    decreases entries.len() - index,
                {
                    proof {
                        assert(entries@.take(index + 1).drop_last() =~= entries@.take(
                            index as int,
                        ));
                    }
                    let entry = &entries[index];
                    proof {
                        assert(decreases_to!(*self => self->Object_0));
                        assert(decreases_to!(*entries => entries[index as int]));
                        assert(decreases_to!(*self => entry.1));
                    }
                    let inner: usize = entry.1.nesting();
                    if inner > deepest {
                        deepest = inner;
                    }
                    index = index + 1;
                }
                proof {
                    assert(entries@.take(entries.len() as int) =~= entries@);
                }
                deepest.saturating_add(1)
            },
            _ => 0,
        }
    }
}

} // verus!
