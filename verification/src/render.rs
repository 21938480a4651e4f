//! One line of the rendered summary: an icon, a label and a value, in the
//! colours of a colour table.

use crate::number::{pad_right, padded_right};
use crate::text::{append, append_str, chars_of, same, slice, string_of};
use vstd::prelude::*;

verus! {

/// Colour names and the escape sequence that each one stands for. No name
/// occurs twice.
pub struct ColorTable {
    entries: Vec<(Vec<char>, Vec<char>)>,
}

/// Whether `name` is the name of the `i`-th entry.
pub open spec fn names_entry(entries: Seq<(Vec<char>, Vec<char>)>, name: Seq<char>, i: int) -> bool {
    0 <= i < entries.len() && entries[i].0@ == name
}

impl ColorTable {
    #[verifier::type_invariant]
    spec fn names_unique(self) -> bool {
        forall|i: int, j: int|
            0 <= i < j < self.entries.len() ==> self.entries[i].0@ != self.entries[j].0@
    }

    /// The table as a map from names to escape sequences.
    pub closed spec fn view(&self) -> Map<Seq<char>, Seq<char>> {
        Map::new(
            |name: Seq<char>| exists|i: int| names_entry(self.entries@, name, i),
            |name: Seq<char>| self.entries[choose|i: int| names_entry(self.entries@, name, i)].1@,
        )
    }

    /// A table without entries.
    pub fn new() -> (table: ColorTable)
        ensures
            table@ == Map::<Seq<char>, Seq<char>>::empty(),
    {
        let table = ColorTable { entries: Vec::new() };
        assert(table@ =~= Map::<Seq<char>, Seq<char>>::empty());
        table
    }

    fn position(&self, name: &Vec<char>) -> (r: Option<usize>)
        ensures
            r matches Some(i) ==> names_entry(self.entries@, name@, i as int),
            r is None ==> forall|i: int| !names_entry(self.entries@, name@, i),
    {
        let mut i: usize = 0;
        while i < self.entries.len()
            invariant
                i <= self.entries.len(),
                forall|k: int| 0 <= k < i ==> !names_entry(self.entries@, name@, k),
            decreases self.entries.len() - i,
        {
            if same(&self.entries[i].0, name) {
                return Some(i);
            }
            i += 1;
        }
        None
    }

    fn copy_entries(&self) -> (r: Vec<(Vec<char>, Vec<char>)>)
        ensures
            r.len() == self.entries.len(),
            forall|k: int|
                0 <= k < r.len() ==> r[k].0@ == self.entries[k].0@ && r[k].1@ == self.entries[k].1@,
    {
        let mut r: Vec<(Vec<char>, Vec<char>)> = Vec::new();
        let mut i: usize = 0;
        while i < self.entries.len()
            invariant
                i <= self.entries.len(),
                r.len() == i,
                forall|k: int|
                    0 <= k < i ==> r[k].0@ == self.entries[k].0@ && r[k].1@ == self.entries[k].1@,
            decreases self.entries.len() - i,
        {
            let name = slice(&self.entries[i].0, 0, self.entries[i].0.len());
            let code = slice(&self.entries[i].1, 0, self.entries[i].1.len());
            assert(name@ == self.entries[i as int].0@);
            assert(code@ == self.entries[i as int].1@);
            r.push((name, code));
            i += 1;
        }
        r
    }

    /// Gives `name` the escape sequence `code`, in place of the one it had,
    /// if it had one.
    pub fn insert(&mut self, name: &str, code: &str)
        ensures
            final(self)@ == old(self)@.insert(name@, code@),
    {
        proof {
            use_type_invariant(&*self);
        }
        let key = chars_of(name);
        let value = chars_of(code);
        let ghost before = self.entries@;
        let found = self.position(&key);
        let mut fresh = self.copy_entries();
        match found {
            Some(i) => {
                fresh.set(i, (key, value));
            },
            None => {
                fresh.push((key, value));
            },
        }
        let ghost place = match found {
            Some(i) => i as int,
            None => before.len() as int,
        };
        assert(names_entry(fresh@, name@, place) && fresh[place].1@ == code@);
        assert forall|n: Seq<char>, k: int| n != name@ implies (names_entry(fresh@, n, k)
            <==> names_entry(before, n, k)) by {}
        assert forall|k: int| 0 <= k < fresh.len() && k != place implies fresh[k].0@
            == before[k].0@ && fresh[k].1@ == before[k].1@ && before[k].0@ != name@ by {
            if found is Some {
                if k < place {
                    assert(before[k].0@ != before[place].0@);
                } else {
                    assert(before[place].0@ != before[k].0@);
                }
            } else {
                assert(!names_entry(before, name@, k));
            }
        }
        self.entries = fresh;
        proof {
            let after = self.entries@;
            let goal = old(self)@.insert(name@, code@);
            assert forall|n: Seq<char>| #[trigger] self@.contains_key(n) <==> goal.contains_key(
                n,
            ) by {
                if n != name@ {
                    if old(self)@.contains_key(n) {
                        let k = choose|k: int| names_entry(before, n, k);
                        assert(names_entry(after, n, k));
                    }
                    if self@.contains_key(n) {
                        let k = choose|k: int| names_entry(after, n, k);
                        assert(names_entry(before, n, k));
                    }
                }
            }
            assert forall|n: Seq<char>| #[trigger] self@.contains_key(n) implies self@[n]
                == goal[n] by {
                let k = choose|k: int| names_entry(after, n, k);
                if n != name@ {
                    let k0 = choose|k: int| names_entry(before, n, k);
                    assert(names_entry(before, n, k));
                    assert(k == k0);
                } else {
                    assert(k == place);
                }
            }
            assert(self@ =~= goal);
        }
    }

    /// The escape sequence of `name`, if the table has the name.
    pub fn get(&self, name: &str) -> (code: Option<String>)
        ensures
            code matches Some(c) ==> self@.contains_key(name@) && c@ == self@[name@],
            code is None ==> !self@.contains_key(name@),
    {
        proof {
            use_type_invariant(self);
        }
        let key = chars_of(name);
        match self.position(&key) {
            Some(i) => {
                proof {
                    let k = choose|k: int| names_entry(self.entries@, name@, k);
                    assert(k == i);
                }
                Some(string_of(&self.entries[i].1))
            },
            None => None,
        }
    }
}

/// The line that shows one item: the icon in the item's colour, the label
/// filled up to nine characters, and the content in the item's colour,
/// between the strokes of the box. The line is empty where the table lacks
/// the colour or the name `reset`.
pub open spec fn item_line(
    colors: Map<Seq<char>, Seq<char>>,
    icon: Seq<char>,
    name: Seq<char>,
    content: Seq<char>,
    color: Seq<char>,
) -> Seq<char> {
    if colors.contains_key(color) && colors.contains_key("reset"@) {
        "│ "@ + colors[color] + icon + " "@ + colors["reset"@] + padded_right(name, 9, ' ') + "│ "@
            + colors[color] + content + colors["reset"@]
    } else {
        Seq::empty()
    }
}

/// Renders one item of the summary.
pub fn add_item(colors: &ColorTable, icon: &str, name: &str, content: &str, color: &str) -> (line:
    String)
    ensures
        line@ == item_line(colors@, icon@, name@, content@, color@),
{
    match colors.get(color) {
        Some(color_code) => match colors.get("reset") {
            Some(reset_code) => {
                let mut out = chars_of("│ ");
                append_str(&mut out, color_code.as_str());
                append_str(&mut out, icon);
                append_str(&mut out, " ");
                append_str(&mut out, reset_code.as_str());
                let label = pad_right(&chars_of(name), 9, ' ');
                append(&mut out, &label);
                append_str(&mut out, "│ ");
                append_str(&mut out, color_code.as_str());
                append_str(&mut out, content);
                append_str(&mut out, reset_code.as_str());
                string_of(&out)
            },
            None => String::new(),
        },
        None => String::new(),
    }
}

} // verus!
