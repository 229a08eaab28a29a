//! A TOML value as plain data: the tree that a manifest parses into.
use vstd::prelude::*;
use vstd::string::StringExecFns;

verus! {

/// One value of a TOML document.
///
/// A table keeps its entries in the order in which they appear in the text.
#[derive(Debug)]
pub enum Node {
    /// A string.
    Str(String),
    /// An integer.
    Integer(i64),
    /// A floating-point number; its value plays no part in the checks.
    Float,
    /// A boolean.
    Boolean(bool),
    /// An offset date-time, local date-time, date or time; its value plays no
    /// part in the checks.
    Datetime,
    /// An array of values.
    Array(Vec<Node>),
    /// A table: named values, in the order of the text.
    Table(Vec<(String, Node)>),
}

/// The value of the first entry named `key`, if any.
pub open spec fn entry_value(entries: Seq<(String, Node)>, key: Seq<char>) -> Option<Node>
    decreases entries.len(),
{
    if entries.len() == 0 {
        None
    } else if entries[0].0@ == key {
        Some(entries[0].1)
    } else {
        entry_value(entries.drop_first(), key)
    }
}

impl Node {
    /// The entry named `key` of a table; nothing for any other value.
    pub open spec fn spec_get(self, key: Seq<char>) -> Option<Node> {
        match self {
            Node::Table(entries) => entry_value(entries@, key),
            _ => None,
        }
    }

    /// The entries of a table, or `None` for any other value.
    pub fn as_table(&self) -> (r: Option<&Vec<(String, Node)>>)
        ensures
            match *self {
                Node::Table(entries) => r == Some(&entries),
                _ => r is None,
            },
    {
        match self {
            Node::Table(entries) => Some(entries),
            _ => None,
        }
    }

    /// The value of the entry named `key` when `self` is a table.
    pub fn get(&self, key: &str) -> (r: Option<&Node>)
        ensures
            match self.spec_get(key@) {
                Some(n) => r == Some(&n),
                None => r is None,
            },
    {
        let entries = match self {
            Node::Table(entries) => entries,
            _ => return None,
        };
        let wanted = String::from_str(key);
        let mut i: usize = 0;
        assert(entries@.subrange(0, entries.len() as int) =~= entries@);
        while i < entries.len()
            invariant
                0 <= i <= entries.len(),
                *self == Node::Table(*entries),
                wanted@ == key@,
                entry_value(entries@, key@) == entry_value(entries@.subrange(i as int, entries.len() as int), key@),
            decreases entries.len() - i,
        {
            assert(entries@.subrange(i as int, entries.len() as int).drop_first()
                =~= entries@.subrange(i as int + 1, entries.len() as int));
            if entries[i].0 == wanted {
                assert(entries@.subrange(i as int, entries.len() as int)[0] == entries@[i as int]);
                return Some(&entries[i].1);
            }
            i = i + 1;
        }
        None
    }
}

} // verus!
