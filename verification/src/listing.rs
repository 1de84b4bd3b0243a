//! The name listing of a directory and the target of a rename.

use vstd::prelude::*;
use vstd::string::StringExecFns;
use crate::path::join;
use crate::text::{from_chars, slice_of, to_chars};

verus! {

/// What a directory entry is.
#[derive(Debug, Clone, Copy, PartialEq, Eq, Structural)]
pub enum EntryKind {
    Directory,
    File,
    /// Neither a directory nor a regular file.
    Link,
    /// The filesystem did not say.
    Unreadable,
}

/// One entry of a directory.
#[derive(Debug, PartialEq, Eq)]
pub struct Entry {
    pub name: String,
    pub kind: EntryKind,
}

/// The line of one entry: its name, a mark for what it is, and a line
/// feed.
pub open spec fn entry_line(name: Seq<char>, kind: EntryKind) -> Seq<char> {
    name + match kind {
        EntryKind::Directory => "/\n"@,
        EntryKind::File => "\n"@,
        EntryKind::Link => " (symlink)\n"@,
        EntryKind::Unreadable => " (error reading type)\n"@,
    }
}

/// The lines of the first `n` entries, one after the other.
pub open spec fn entry_lines(entries: Seq<Entry>, n: nat) -> Seq<char>
    decreases n,
{
    if n == 0 || n > entries.len() {
        Seq::empty()
    } else {
        entry_lines(entries, (n - 1) as nat) + entry_line(
            entries[n - 1].name@,
            entries[n - 1].kind,
        )
    }
}

/// The name listing: the lines of all entries, or a note where there are
/// none.
pub open spec fn listing_text(entries: Seq<Entry>) -> Seq<char> {
    if entry_lines(entries, entries.len()).len() == 0 {
        "No files found.\n"@
    } else {
        entry_lines(entries, entries.len())
    }
}

/// The name listing of a directory with these entries.
pub fn format_listing(entries: &Vec<Entry>) -> (out: String)
    ensures
        out@ == listing_text(entries@),
{
    let mut out = String::new();
    let mut i: usize = 0;
    while i < entries.len()
        invariant
            i <= entries.len(),
            out@ == entry_lines(entries@, i as nat),
        decreases entries.len() - i,
    {
        out.append(entries[i].name.as_str());
        match entries[i].kind {
            EntryKind::Directory => out.append("/\n"),
            EntryKind::File => out.append("\n"),
            EntryKind::Link => out.append(" (symlink)\n"),
            EntryKind::Unreadable => out.append(" (error reading type)\n"),
        }
        i += 1;
        assert(out@ =~= entry_lines(entries@, i as nat));
    }
    if out.as_str().unicode_len() == 0 {
        "No files found.\n".to_owned()
    } else {
        out
    }
}

/// The last component of `p`: what follows its last `'/'`.
pub open spec fn base_name(p: Seq<char>) -> Seq<char>
    decreases p.len(),
{
    if p.len() == 0 || p.last() == '/' {
        Seq::empty()
    } else {
        base_name(p.drop_last()).push(p.last())
    }
}

/// Where a rename goes: a file renamed onto an existing directory goes
/// into that directory under its own name; anything else goes to `to`.
pub open spec fn rename_target_path(
    from: Seq<char>,
    to: Seq<char>,
    from_is_dir: bool,
    to_is_dir: bool,
) -> Seq<char> {
    if !from_is_dir && to_is_dir {
        join(to, base_name(from))
    } else {
        to
    }
}

/// Where the rename of `from` to `to` goes, given what the two are on disk.
pub fn rename_target(from: &str, to: &str, from_is_dir: bool, to_is_dir: bool) -> (out: String)
    ensures
        out@ == rename_target_path(from@, to@, from_is_dir, to_is_dir),
{
    if from_is_dir || !to_is_dir {
        return to.to_owned();
    }
    let source = to_chars(from);
    let mut start: usize = source.len();
    assert(source@.subrange(start as int, source.len() as int) == Seq::<char>::empty());
    assert(source@.take(start as int) == source@);
    while start > 0 && source[start - 1] != '/'
        invariant
            start <= source.len(),
            base_name(source@) == base_name(source@.take(start as int)) + source@.subrange(
                start as int,
                source.len() as int,
            ),
        decreases start,
    {
        let ghost front = source@.take(start as int);
        assert(front.drop_last() == source@.take(start - 1));
        assert(base_name(front.drop_last()).push(front.last()) + source@.subrange(
            start as int,
            source.len() as int,
        ) == base_name(front.drop_last()) + source@.subrange(start - 1, source.len() as int));
        start -= 1;
    }
    let name = slice_of(source.as_slice(), start, source.len());
    assert(name@ == base_name(source@)) by {
        let front = source@.take(start as int);
        assert(front.len() == 0 || front.last() == '/');
        assert(base_name(front) == Seq::<char>::empty());
    }
    let mut target = to_chars(to);
    if name.len() > 0 {
        if target.len() > 0 && target[target.len() - 1] != '/' {
            target.push('/');
        }
        let mut name = name;
        target.append(&mut name);
    }
    from_chars(target.as_slice())
}

} // verus!
