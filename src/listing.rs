//! Reading the index listing printed by `git ls-files -v`.
//!
//! Each line of that listing is a one-character tag, a separator and a path.
//! The tag `S` marks a file whose skip-worktree bit is set.
use vstd::prelude::*;

use crate::item::{views, FileItem};

verus! {

broadcast use vstd::string::group_string_axioms;

/// The record that one line contributes: none for a line of two characters
/// or fewer, else its path (from the third character on) and whether its
/// tag is `S`.
pub open spec fn entry_of(line: Seq<char>) -> Seq<(Seq<char>, bool)> {
    if line.len() > 2 {
        seq![(line.subrange(2, line.len() as int), line[0] == 'S')]
    } else {
        seq![]
    }
}

/// A line that ended in `"\r\n"` loses its `'\r'`.
pub open spec fn without_cr(line: Seq<char>) -> Seq<char> {
    if line.len() > 0 && line.last() == '\r' {
        line.drop_last()
    } else {
        line
    }
}

/// The listing read up to the end of `t`: the records of the lines that a
/// `'\n'` has closed, and the characters of the line still open.
pub open spec fn scan(t: Seq<char>) -> (Seq<(Seq<char>, bool)>, Seq<char>)
    decreases t.len(),
{
    if t.len() == 0 {
        (seq![], seq![])
    } else {
        let prev = scan(t.drop_last());
        if t.last() == '\n' {
            (prev.0 + entry_of(without_cr(prev.1)), seq![])
        } else {
            (prev.0, prev.1.push(t.last()))
        }
    }
}

/// The records of a whole listing, in the order of its lines. The last line
/// needs no line end, and keeps a trailing `'\r'`.
pub open spec fn listing(t: Seq<char>) -> Seq<(Seq<char>, bool)> {
    scan(t).0 + entry_of(scan(t).1)
}

/// Relies on String::push: the character is appended at the end.
#[verifier::external_body]
fn push_char(s: &mut String, c: char)
    ensures
        final(s)@ == old(s)@.push(c),
{
    s.push(c)
}

/// What is kept of the line being read: its length up to 3, its first
/// character, and its characters from the third on.
struct LineBuf {
    n: usize,
    first: char,
    path: String,
}

impl LineBuf {
    spec fn holds(&self, line: Seq<char>) -> bool {
        &&& self.n as int == if line.len() < 3 { line.len() as int } else { 3 }
        &&& line.len() > 0 ==> self.first == line[0]
        &&& self.path@ == if line.len() > 2 {
            line.subrange(2, line.len() as int)
        } else {
            Seq::<char>::empty()
        }
    }

    fn new() -> (r: LineBuf)
        ensures
            r.holds(Seq::<char>::empty()),
    {
        LineBuf { n: 0, first: ' ', path: String::new() }
    }

    fn add(&mut self, c: char, Ghost(line): Ghost<Seq<char>>)
        requires
            old(self).holds(line),
        ensures
            final(self).holds(line.push(c)),
    {
        if self.n == 0 {
            self.first = c;
        }
        if self.n >= 2 {
            push_char(&mut self.path, c);
        }
        if self.n < 3 {
            self.n = self.n + 1;
        }
        proof {
            if line.len() >= 2 {
                assert(line.push(c).subrange(2, line.len() + 1 as int) =~= if line.len() > 2 {
                    line.subrange(2, line.len() as int).push(c)
                } else {
                    seq![c]
                });
            }
        }
    }

    fn finish(self, Ghost(line): Ghost<Seq<char>>) -> (r: Option<FileItem>)
        requires
            self.holds(line),
        ensures
            match r {
                Some(f) => entry_of(line) == seq![f@],
                None => entry_of(line) == Seq::<(Seq<char>, bool)>::empty(),
            },
    {
        if self.n > 2 {
            Some(FileItem { path: self.path, skipped: self.first == 'S' })
        } else {
            None
        }
    }
}

/// Reads the output of `git ls-files -v` into one record per line of three
/// characters or more, in order.
pub fn parse_listing(text: &str) -> (r: Vec<FileItem>)
    ensures
        views(r@) == listing(text@),
{
    let mut items: Vec<FileItem> = Vec::new();
    let mut buf = LineBuf::new();
    let mut cr: bool = false;
    for c in it: text.chars()
        invariant
            it.seq() == text@,
            views(items@) == scan(text@.take(it.index() as int)).0,
            cr == ({
                let cur = scan(text@.take(it.index() as int)).1;
                cur.len() > 0 && cur.last() == '\r'
            }),
            buf.holds(
                {
                    let cur = scan(text@.take(it.index() as int)).1;
                    if cr { cur.drop_last() } else { cur }
                },
            ),
    {
        let ghost pre = text@.take(it.index() as int);
        let ghost cur = scan(pre).1;
        let ghost held = if cr { cur.drop_last() } else { cur };
        assert(text@.take(it.index() + 1).drop_last() =~= pre);
        if c == '\n' {
            assert(without_cr(cur) == held);
            let done = buf.finish(Ghost(held));
            match done {
                Some(f) => {
                    let ghost before = items@;
                    items.push(f);
                    assert(views(items@) =~= views(before) + entry_of(held));
                },
                None => {
                    assert(views(items@) =~= views(items@) + entry_of(held));
                },
            }
            buf = LineBuf::new();
            cr = false;
        } else {
            if cr {
                buf.add('\r', Ghost(held));
                assert(held.push('\r') =~= cur);
            }
            if c == '\r' {
                cr = true;
                assert(cur.push(c).drop_last() =~= cur);
            } else {
                buf.add(c, Ghost(cur));
                cr = false;
            }
        }
    }
    let ghost cur = scan(text@).1;
    assert(text@.take(text@.len() as int) =~= text@);
    if cr {
        buf.add('\r', Ghost(cur.drop_last()));
        assert(cur.drop_last().push('\r') =~= cur);
    }
    let last = buf.finish(Ghost(cur));
    match last {
        Some(f) => {
            let ghost before = items@;
            items.push(f);
            assert(views(items@) =~= views(before) + entry_of(cur));
        },
        None => {
            assert(views(items@) =~= views(items@) + entry_of(cur));
        },
    }
    items
}

} // verus!
