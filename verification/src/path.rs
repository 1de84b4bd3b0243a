//! Client paths and server paths.
//!
//! A session shows its client a virtual tree rooted at `"/"` and keeps every
//! real path it touches inside one configured root directory. Paths are plain
//! text, split into components at `'/'`.

use vstd::prelude::*;
use crate::text::{find_from, from_chars, lemma_until, lemma_until_found, to_chars, until};

verus! {

/// Whether `p` starts at the top of a tree, that is with `'/'`.
pub open spec fn is_absolute(p: Seq<char>) -> bool {
    p.len() > 0 && p[0] == '/'
}

/// `p` without one leading `'/'`, if it has one.
pub open spec fn strip_slash(p: Seq<char>) -> Seq<char> {
    if is_absolute(p) {
        p.skip(1)
    } else {
        p
    }
}

/// `p` without any of its leading `'/'`.
pub open spec fn strip_slashes(p: Seq<char>) -> Seq<char>
    decreases p.len(),
{
    if is_absolute(p) {
        strip_slashes(p.skip(1))
    } else {
        p
    }
}

/// `rel` appended to `base` as further components, with one `'/'` between
/// the two where `base` does not already end in one. An empty side leaves the
/// other unchanged.
pub open spec fn join(base: Seq<char>, rel: Seq<char>) -> Seq<char> {
    if rel.len() == 0 {
        base
    } else if base.len() == 0 {
        rel
    } else if base.last() == '/' {
        base + rel
    } else {
        base + seq!['/'] + rel
    }
}

/// Containment: `p` is `root` itself or continues it by whole components.
/// `/var/ftpx` is not within `/var/ftp`; everything is within the empty path.
pub open spec fn within(root: Seq<char>, p: Seq<char>) -> bool {
    &&& root.is_prefix_of(p)
    &&& (root.len() == 0 || p.len() == root.len() || root.last() == '/' || p[root.len() as int]
        == '/')
}

/// The length of the first component of `p`: the number of characters before
/// its first `'/'`, or all of them where it has none.
pub open spec fn head_len(p: Seq<char>) -> nat {
    until(p, '/')
}

/// What follows the first component of `p` and the `'/'` that ends it.
pub open spec fn after_head(p: Seq<char>) -> Seq<char> {
    if head_len(p) < p.len() {
        p.skip(head_len(p) as int + 1)
    } else {
        Seq::empty()
    }
}

/// Walks the components of `p` from a directory `depth` levels below some
/// starting directory: a name goes one level down, `..` one level up, an
/// empty component and `.` stay. The result is the level reached, or `None`
/// as soon as a `..` would go above the starting directory.
pub open spec fn descend(p: Seq<char>, depth: nat) -> Option<nat>
    decreases p.len(),
{
    if p.len() == 0 {
        Some(depth)
    } else {
        let head = p.take(head_len(p) as int);
        if head == seq!['.', '.'] {
            if depth == 0 {
                None
            } else {
                descend(after_head(p), (depth - 1) as nat)
            }
        } else if head.len() == 0 || head == seq!['.'] {
            descend(after_head(p), depth)
        } else {
            descend(after_head(p), depth + 1)
        }
    }
}

/// The server path that a client path stands for, before the filesystem is
/// asked: one leading `'/'` is dropped; what is left is joined onto `cwd` if
/// it is relative, and onto `root`, without its leading `'/'`s, if it is not.
pub open spec fn joined_path(root: Seq<char>, cwd: Seq<char>, client: Seq<char>) -> Seq<char> {
    let rest = strip_slash(client);
    if is_absolute(rest) {
        join(root, strip_slashes(rest))
    } else {
        join(cwd, rest)
    }
}

/// Whether the components that `p` has behind the first `root.len()`
/// characters never climb above where they start.
pub open spec fn stays_below(root: Seq<char>, p: Seq<char>) -> bool {
    root.len() <= p.len() && descend(p.skip(root.len() as int), 0) is Some
}

/// The client's name for the server path `p`: `p` without `root` in front
/// where `p` is within `root`, and `p` itself where it is not.
pub open spec fn client_path(root: Seq<char>, p: Seq<char>) -> Seq<char> {
    if within(root, p) {
        p.skip(root.len() as int)
    } else {
        p
    }
}

/// The client's name for the working directory: `"/"` at the root.
pub open spec fn shown_path(root: Seq<char>, cwd: Seq<char>) -> Seq<char> {
    if client_path(root, cwd).len() == 0 {
        seq!['/']
    } else {
        client_path(root, cwd)
    }
}

/// Why a path was refused.
#[derive(Debug, PartialEq, Eq)]
pub enum PathError {
    /// Invalid input: the `..` components of a path that need not exist
    /// lead above the root.
    Traversal,
    /// Invalid input: the filesystem's answer is not an absolute path.
    NotAbsolute,
    /// Permission denied: the canonical path lies outside the root.
    OutsideRoot,
    /// The filesystem could not resolve the path; the text is its message.
    Filesystem(String),
}

/// The class of a [`PathError`].
#[derive(Debug, Clone, Copy, PartialEq, Eq, Structural)]
pub enum ErrorClass {
    InvalidInput,
    PermissionDenied,
    /// The filesystem's own error, such as a path that does not exist.
    Filesystem,
}

impl PathError {
    /// The class the error belongs to.
    pub fn class(&self) -> (out: ErrorClass)
        ensures
            out == match *self {
                PathError::Traversal | PathError::NotAbsolute => ErrorClass::InvalidInput,
                PathError::OutsideRoot => ErrorClass::PermissionDenied,
                PathError::Filesystem(_) => ErrorClass::Filesystem,
            },
    {
        match self {
            PathError::Traversal => ErrorClass::InvalidInput,
            PathError::NotAbsolute => ErrorClass::InvalidInput,
            PathError::OutsideRoot => ErrorClass::PermissionDenied,
            PathError::Filesystem(_) => ErrorClass::Filesystem,
        }
    }

    /// The text sent to the client for this error.
    pub open spec fn text(self) -> Seq<char> {
        match self {
            PathError::Traversal => "Path leads above the root directory"@,
            PathError::NotAbsolute => "Path must be absolute"@,
            PathError::OutsideRoot => "Path is outside of the root directory"@,
            PathError::Filesystem(text) => text@,
        }
    }

    /// The text sent to the client for this error.
    pub fn message(&self) -> (out: String)
        ensures
            out@ == self.text(),
    {
        match self {
            PathError::Traversal => "Path leads above the root directory".to_owned(),
            PathError::NotAbsolute => "Path must be absolute".to_owned(),
            PathError::OutsideRoot => "Path is outside of the root directory".to_owned(),
            PathError::Filesystem(text) => text.clone(),
        }
    }
}

/// Whether `p` begins with `'/'`.
fn starts_with_slash(p: &[char]) -> (b: bool)
    ensures
        b == is_absolute(p@),
{
    p.len() > 0 && p[0] == '/'
}

/// The place in `p`, at or after `from`, of the first character that is not
/// `'/'`.
fn skip_slashes(p: &[char], from: usize) -> (at: usize)
    requires
        from <= p.len(),
    ensures
        from <= at <= p.len(),
        p@.skip(at as int) == strip_slashes(p@.skip(from as int)),
{
    let mut at: usize = from;
    while at < p.len() && p[at] == '/'
        invariant
            from <= at <= p.len(),
            strip_slashes(p@.skip(at as int)) == strip_slashes(p@.skip(from as int)),
        decreases p.len() - at,
    {
        assert(p@.skip(at as int).skip(1) == p@.skip(at + 1));
        at += 1;
    }
    at
}

/// Appends to `out` the characters of `p` from `from` on.
fn append_from(out: &mut Vec<char>, p: &[char], from: usize)
    requires
        from <= p.len(),
    ensures
        final(out)@ == old(out)@ + p@.skip(from as int),
{
    let mut i: usize = from;
    while i < p.len()
        invariant
            from <= i <= p.len(),
            out@ == old(out)@ + p@.subrange(from as int, i as int),
        decreases p.len() - i,
    {
        out.push(p[i]);
        i += 1;
        assert(p@.subrange(from as int, i as int) == p@.subrange(from as int, i - 1).push(
            p@[i - 1],
        ));
    }
    assert(p@.subrange(from as int, p.len() as int) == p@.skip(from as int));
}

/// `base` joined with what `rel` holds from `from` on.
fn join_from(base: &[char], rel: &[char], from: usize) -> (out: Vec<char>)
    requires
        from <= rel.len(),
    ensures
        out@ == join(base@, rel@.skip(from as int)),
{
    let mut out: Vec<char> = Vec::new();
    append_from(&mut out, base, 0);
    assert(base@.skip(0) == base@);
    if from < rel.len() {
        if base.len() > 0 && base[base.len() - 1] != '/' {
            out.push('/');
        }
        append_from(&mut out, rel, from);
    }
    out
}

/// Whether `p` is within `root`.
fn is_within(root: &[char], p: &[char]) -> (b: bool)
    ensures
        b == within(root@, p@),
{
    if root.len() > p.len() {
        return false;
    }
    let mut i: usize = 0;
    while i < root.len()
        invariant
            i <= root.len() <= p.len(),
            root@.take(i as int) == p@.take(i as int),
        decreases root.len() - i,
    {
        if root[i] != p[i] {
            assert(!root@.is_prefix_of(p@)) by {
                if root@.is_prefix_of(p@) {
                    assert(root@[i as int] == p@.subrange(0, root@.len() as int)[i as int]);
                }
            }
            return false;
        }
        i += 1;
        assert(root@.take(i as int) == root@.take(i - 1).push(root@[i - 1]));
        assert(p@.take(i as int) == p@.take(i - 1).push(p@[i - 1]));
    }
    assert(root@.take(root.len() as int) == root@);
    assert(root@.is_prefix_of(p@));
    root.len() == 0 || p.len() == root.len() || root[root.len() - 1] == '/' || p[root.len()]
        == '/'
}

/// Whether the components of `p` from `from` on never climb above where
/// they start.
fn descends(p: &[char], from: usize) -> (b: bool)
    requires
        from <= p.len(),
    ensures
        b == (descend(p@.skip(from as int), 0) is Some),
{
    let mut i: usize = from;
    let mut depth: usize = 0;
    while i < p.len()
        invariant
            from <= i <= p.len(),
            depth <= i,
            descend(p@.skip(from as int), 0) == descend(p@.skip(i as int), depth as nat),
        decreases p.len() - i,
    {
        let j: usize = find_from(p, '/', i);
        let ghost rest = p@.skip(i as int);
        proof {
            if j < p.len() {
                assert(rest.skip(j - i + 1) == p@.skip(j + 1));
            } else {
                assert(p@.skip(j as int) == Seq::<char>::empty());
            }
        }
        let len: usize = j - i;
        let next: usize = if j < p.len() {
            j + 1
        } else {
            j
        };
        assert(after_head(rest) == p@.skip(next as int));
        let ghost head = rest.take(len as int);
        assert(head.len() == len);
        assert(forall|k: int| 0 <= k < len ==> head[k] == p@[i + k]);
        if len == 2 && p[i] == '.' && p[i + 1] == '.' {
            assert(head == seq!['.', '.']);
            if depth == 0 {
                return false;
            }
            depth -= 1;
        } else if len == 0 || (len == 1 && p[i] == '.') {
            assert(head.len() == 0 || head == seq!['.']);
            assert(head != seq!['.', '.']);
        } else {
            assert(head != seq!['.', '.']) by {
                if head == seq!['.', '.'] {
                    assert(seq!['.', '.'].len() == 2);
                    assert(head[0] == '.' && head[1] == '.');
                }
            }
            assert(head != seq!['.']) by {
                if head == seq!['.'] {
                    assert(seq!['.'].len() == 1);
                    assert(head[0] == '.');
                }
            }
            depth += 1;
        }
        i = next;
    }
    assert(p@.skip(i as int).len() == 0);
    true
}

/// The server path of something that exists, from the filesystem's
/// `answer` to the joined path: an error of the filesystem is handed on; a
/// canonical path that is not absolute is invalid input; one that is not
/// within the root is refused as outside it; any other is accepted. Only the
/// canonical form decides, not the text of the client's path.
pub open spec fn checked_path(root: Seq<char>, answer: Result<String, String>) -> Result<
    String,
    PathError,
> {
    match answer {
        Err(text) => Err(PathError::Filesystem(text)),
        Ok(canonical) => if !is_absolute(canonical@) {
            Err(PathError::NotAbsolute)
        } else if !within(root, canonical@) {
            Err(PathError::OutsideRoot)
        } else {
            Ok(canonical)
        },
    }
}

/// The working directory after one change of directory: the accepted path,
/// or the old one where the change was refused.
pub open spec fn after_cd(root: Seq<char>, cwd: Seq<char>, answer: Result<String, String>) -> Seq<
    char,
> {
    match checked_path(root, answer) {
        Ok(p) => p@,
        Err(_) => cwd,
    }
}

/// The working directory after a run of changes of directory, each given
/// by what the filesystem answered for it.
pub open spec fn after_cds(
    root: Seq<char>,
    cwd: Seq<char>,
    answers: Seq<Result<String, String>>,
) -> Seq<char>
    decreases answers.len(),
{
    if answers.len() == 0 {
        cwd
    } else {
        after_cd(root, after_cds(root, cwd, answers.drop_last()), answers.last())
    }
}

/// Containment: starting at the root, no run of changes of directory, with
/// whatever paths and whatever answers of the filesystem, leads to a working
/// directory that is not the root or below it.
pub proof fn lemma_containment(root: Seq<char>, answers: Seq<Result<String, String>>)
    ensures
        within(root, after_cds(root, root, answers)),
    decreases answers.len(),
{
    if answers.len() > 0 {
        lemma_containment(root, answers.drop_last());
    }
}

/// Joining never leaves the tree: where the working directory is within
/// the root, so is the server path that any client path is joined to.
pub proof fn lemma_joined_within(root: Seq<char>, cwd: Seq<char>, client: Seq<char>)
    requires
        within(root, cwd),
    ensures
        within(root, joined_path(root, cwd, client)),
{
    let rest = strip_slash(client);
    let joined = joined_path(root, cwd, client);
    if is_absolute(rest) {
        assert(root.is_prefix_of(joined));
    } else {
        assert(cwd.is_prefix_of(joined));
        assert(root.is_prefix_of(joined));
        if root.len() > 0 && cwd.len() > root.len() {
            assert(joined[root.len() as int] == cwd[root.len() as int]);
        }
    }
}

/// Walking `a`, a `'/'` and then `b` is walking `a` and going on with `b`
/// from the level that `a` led to.
pub proof fn lemma_descend_joined(a: Seq<char>, b: Seq<char>, depth: nat)
    ensures
        descend(a + seq!['/'] + b, depth) == match descend(a, depth) {
            Some(d) => descend(b, d),
            None => None,
        },
    decreases a.len(),
{
    let whole = a + seq!['/'] + b;
    let h = until(a, '/') as int;
    lemma_until_found(a, '/');
    assert forall|j: int| 0 <= j < h implies whole[j] != '/' by {
        assert(whole[j] == a[j]);
    }
    assert(whole[h] == '/') by {
        if h < a.len() {
            assert(whole[h] == a[h]);
        }
    }
    lemma_until(whole, '/', h);
    assert(whole.take(h) == a.take(h));
    if h < a.len() {
        let rest = a.skip(h + 1);
        assert(whole.skip(h + 1) == rest + seq!['/'] + b);
        assert(after_head(whole) == rest + seq!['/'] + b);
        assert(after_head(a) == rest);
        lemma_descend_joined(rest, b, depth);
        lemma_descend_joined(rest, b, depth + 1);
        if depth > 0 {
            lemma_descend_joined(rest, b, (depth - 1) as nat);
        }
    } else {
        assert(whole.skip(h + 1) == b);
        assert(after_head(whole) == b);
        if a.len() > 0 {
            let nothing = Seq::<char>::empty();
            assert(after_head(a) == nothing);
            assert(descend(nothing, depth) == Some(depth));
            assert(descend(nothing, depth + 1) == Some(depth + 1));
            if depth > 0 {
                assert(descend(nothing, (depth - 1) as nat) == Some((depth - 1) as nat));
            }
        }
    }
}

/// A single name that is not `..` never climbs.
pub proof fn lemma_descend_name(name: Seq<char>, depth: nat)
    requires
        forall|i: int| 0 <= i < name.len() ==> name[i] != '/',
        name != seq!['.', '.'],
    ensures
        descend(name, depth) is Some,
{
    if name.len() > 0 {
        let nothing = Seq::<char>::empty();
        lemma_until(name, '/', name.len() as int);
        assert(name.take(name.len() as int) == name);
        assert(after_head(name) == nothing);
        assert(descend(nothing, depth) == Some(depth));
        assert(descend(nothing, depth + 1) == Some(depth + 1));
    }
}

/// A single name that is not `..`, looked up in a working directory whose
/// own components do not climb above the root, does not climb above the
/// root either. At the root this holds of every such name.
pub proof fn lemma_name_stays_below(root: Seq<char>, cwd: Seq<char>, name: Seq<char>)
    requires
        within(root, cwd),
        stays_below(root, cwd),
        forall|i: int| 0 <= i < name.len() ==> name[i] != '/',
        name != seq!['.', '.'],
    ensures
        stays_below(root, root),
        stays_below(root, joined_path(root, cwd, name)),
{
    assert(root.skip(root.len() as int) == Seq::<char>::empty());
    let a = cwd.skip(root.len() as int);
    let joined = joined_path(root, cwd, name);
    let d = descend(a, 0)->0;
    lemma_descend_name(name, d);
    if name.len() == 0 {
        assert(joined == cwd);
    } else if cwd.len() == 0 {
        assert(joined == name);
        assert(joined.skip(root.len() as int) == name);
        assert(a == Seq::<char>::empty());
    } else if cwd.last() == '/' {
        assert(joined == cwd + name);
        if a.len() == 0 {
            assert(joined.skip(root.len() as int) == name);
        } else {
            let front = a.drop_last();
            assert(a == front + seq!['/'] + Seq::<char>::empty());
            lemma_descend_joined(front, Seq::<char>::empty(), 0);
            lemma_descend_joined(front, name, 0);
            assert(joined.skip(root.len() as int) == front + seq!['/'] + name);
        }
    } else {
        assert(joined == cwd + seq!['/'] + name);
        assert(joined.skip(root.len() as int) == a + seq!['/'] + name);
        lemma_descend_joined(a, name, 0);
    }
}

/// Dropping leading `'/'`s never makes a path longer.
proof fn lemma_strip_slashes_len(p: Seq<char>)
    ensures
        strip_slashes(p).len() <= p.len(),
        is_absolute(p) ==> strip_slashes(p).len() < p.len(),
    decreases p.len(),
{
    if is_absolute(p) {
        lemma_strip_slashes_len(p.skip(1));
    }
}

/// Round trip in place: resolved where it was reported, the client's name
/// for the working directory leads back to the working directory exactly
/// where that name is `"/"`, as it is at the root. A longer name is joined
/// onto the working directory like any other path and so leads below it.
pub proof fn lemma_round_trip_in_place(root: Seq<char>, cwd: Seq<char>)
    requires
        within(root, cwd),
    ensures
        cwd == root ==> shown_path(root, cwd) == seq!['/'],
        joined_path(root, cwd, shown_path(root, cwd)) == cwd <==> shown_path(root, cwd)
            == seq!['/'],
        shown_path(root, cwd) == seq!['/'] ==> stays_below(
            root,
            joined_path(root, cwd, shown_path(root, cwd)),
        ) == stays_below(root, cwd),
{
    let shown = shown_path(root, cwd);
    let rest = strip_slash(shown);
    let joined = joined_path(root, cwd, shown);
    if cwd == root {
        assert(root.skip(root.len() as int) == Seq::<char>::empty());
    }
    if shown == seq!['/'] {
        assert(rest == Seq::<char>::empty());
        assert(joined == cwd);
    } else if is_absolute(rest) {
        lemma_strip_slashes_len(rest);
        assert(shown == cwd.skip(root.len() as int));
        assert(joined.len() < cwd.len());
    } else {
        assert(rest.len() > 0) by {
            if rest.len() == 0 {
                assert(shown.len() == 1 && shown[0] == '/');
                assert(shown == seq!['/']);
            }
        }
        assert(cwd.len() > 0) by {
            if cwd.len() == 0 {
                assert(client_path(root, cwd).len() == 0);
            }
        }
        assert(joined.len() > cwd.len());
    }
}

/// Below the root the client's name for the working directory is the rest
/// of its server path, and a resolver standing at the root leads it back to
/// the same server path. This holds of a root that does not end in `'/'` and
/// of a working directory that goes on behind the root with `'/'` and a
/// name.
pub proof fn lemma_round_trip_below_root(root: Seq<char>, cwd: Seq<char>)
    requires
        within(root, cwd),
        root.len() > 0,
        root.last() != '/',
        cwd.len() > root.len() + 1,
        cwd[root.len() as int + 1] != '/',
    ensures
        shown_path(root, cwd) == cwd.skip(root.len() as int),
        joined_path(root, root, shown_path(root, cwd)) == cwd,
{
    let shown = shown_path(root, cwd);
    assert(shown == cwd.skip(root.len() as int));
    assert(shown[0] == '/');
    let rest = strip_slash(shown);
    assert(rest == cwd.skip(root.len() as int + 1));
    assert(rest[0] == cwd[root.len() as int + 1]);
    assert(root + seq!['/'] + rest == cwd);
}

/// `dunce::canonicalize`: asks the filesystem for the canonical, absolute
/// form of `path`, with symbolic links, `.` and `..` resolved, which fails
/// where `path` does not exist. The answer depends on what is on disk, so
/// nothing is claimed of it. An error comes back as its text; in an answer
/// that is not Unicode the replacement character stands for what is not.
#[verifier::external_body]
pub(crate) fn canonicalize(path: &str) -> (out: Result<String, String>) {
    match dunce::canonicalize(path) {
        Ok(found) => Ok(found.to_string_lossy().into_owned()),
        Err(e) => Err(e.to_string()),
    }
}

/// The root a session is confined to and its working directory, both as
/// server paths.
pub struct PathHandler {
    pwd: Vec<char>,
    root: Vec<char>,
}

impl PathHandler {
    /// The root directory.
    pub closed spec fn root(&self) -> Seq<char> {
        self.root@
    }

    /// The working directory.
    pub closed spec fn cwd(&self) -> Seq<char> {
        self.pwd@
    }

    /// The working directory is within the root.
    pub open spec fn wf(&self) -> bool {
        within(self.root(), self.cwd())
    }

    /// A handler whose working directory is its root.
    pub fn new(root: &str) -> (out: Self)
        ensures
            out.root() == root@,
            out.cwd() == root@,
            out.wf(),
    {
        let root = to_chars(root);
        PathHandler { pwd: root.clone(), root }
    }

    fn set_pwd(&mut self, new_pwd: Vec<char>)
        ensures
            final(self).cwd() == new_pwd@,
            final(self).root() == old(self).root(),
    {
        self.pwd = new_pwd;
    }

    /// Changes the working directory. `answer` is what the filesystem gave
    /// as the canonical form of `join_client_path(new_pwd)` for the client's
    /// path `new_pwd`, or the text of its error. The answer is checked as
    /// `to_server_path` checks it; on success it becomes the working
    /// directory, and on any failure nothing changes.
    pub fn cd(&mut self, answer: Result<String, String>) -> (out: Result<(), PathError>)
        ensures
            final(self).root() == old(self).root(),
            out == match old(self).checked(answer) {
                Ok(_) => Ok::<(), PathError>(()),
                Err(e) => Err(e),
            },
            final(self).cwd() == after_cd(old(self).root(), old(self).cwd(), answer),
            old(self).wf() ==> final(self).wf(),
            out is Ok ==> final(self).wf() && is_absolute(final(self).cwd()),
    {
        match self.to_server_path(answer) {
            Ok(server_path) => {
                self.set_pwd(to_chars(server_path.as_str()));
                Ok(())
            },
            Err(e) => Err(e),
        }
    }

    /// The working directory as a server path.
    pub fn pwd(&self) -> (out: String)
        ensures
            out@ == self.cwd(),
    {
        from_chars(self.pwd.as_slice())
    }

    /// The working directory as the client sees it: `"/"` at the root.
    pub fn get_pwd(&self) -> (out: String)
        ensures
            out@ == shown_path(self.root(), self.cwd()),
    {
        let shown = self.client_chars(self.pwd.as_slice());
        if shown.len() == 0 {
            proof {
                reveal_strlit("/");
            }
            assert("/"@ == seq!['/']);
            "/".to_owned()
        } else {
            from_chars(shown.as_slice())
        }
    }

    /// Whether `path` is the root or lies below it.
    pub fn is_within_root(&self, path: &str) -> (b: bool)
        ensures
            b == within(self.root(), path@),
    {
        let path = to_chars(path);
        is_within(self.root.as_slice(), path.as_slice())
    }

    fn client_chars(&self, path: &[char]) -> (out: Vec<char>)
        ensures
            out@ == client_path(self.root(), path@),
    {
        let mut out: Vec<char> = Vec::new();
        if is_within(self.root.as_slice(), path) {
            append_from(&mut out, path, self.root.len());
        } else {
            append_from(&mut out, path, 0);
            assert(path@.skip(0) == path@);
        }
        out
    }

    /// The client's name for the server path `path`: without the root in
    /// front where `path` is within it, unchanged where it is not.
    pub fn to_client_path(&self, path: &str) -> (out: String)
        ensures
            out@ == client_path(self.root(), path@),
    {
        let path = to_chars(path);
        let shown = self.client_chars(path.as_slice());
        from_chars(shown.as_slice())
    }

    /// What `to_server_path` returns for the filesystem's `answer`:
    /// `checked_path` at this root.
    pub open spec fn checked(&self, answer: Result<String, String>) -> Result<String, PathError> {
        checked_path(self.root(), answer)
    }

    /// The canonical server path of something that exists. `answer` is what
    /// the filesystem gave as the canonical form of `join_client_path(path)`
    /// for the client's path, or the text of its error. A path that comes
    /// back is absolute and within the root.
    pub fn to_server_path(&self, answer: Result<String, String>) -> (out: Result<
        String,
        PathError,
    >)
        ensures
            out == self.checked(answer),
            out matches Ok(p) ==> is_absolute(p@) && within(self.root(), p@),
    {
        match answer {
            Ok(canonical) => {
                let chars = to_chars(canonical.as_str());
                if !starts_with_slash(chars.as_slice()) {
                    Err(PathError::NotAbsolute)
                } else if !is_within(self.root.as_slice(), chars.as_slice()) {
                    Err(PathError::OutsideRoot)
                } else {
                    Ok(canonical)
                }
            },
            Err(text) => Err(PathError::Filesystem(text)),
        }
    }

    /// `to_server_path` with the answer of the filesystem on this machine
    /// for the path that `path` is joined to: some answer is held to
    /// `checked`, so that a path that comes back is absolute and within the
    /// root.
    pub fn to_server_path_on_disk(&self, path: &str) -> (out: Result<String, PathError>)
        ensures
            exists|answer: Result<String, String>| out == self.checked(answer),
            out matches Ok(p) ==> is_absolute(p@) && within(self.root(), p@),
    {
        let joined = self.join_client_path(path);
        let answer = canonicalize(joined.as_str());
        let ghost given = answer;
        let out = self.to_server_path(answer);
        assert(out == self.checked(given));
        out
    }

    /// `cd` with the answer of the filesystem on this machine for the path
    /// that `new_pwd` is joined to: on success the working directory is
    /// absolute and within the root, and on any failure nothing changes.
    pub fn cd_on_disk(&mut self, new_pwd: &str) -> (out: Result<(), PathError>)
        ensures
            final(self).root() == old(self).root(),
            exists|answer: Result<String, String>|
                {
                    &&& out == match old(self).checked(answer) {
                        Ok(_) => Ok::<(), PathError>(()),
                        Err(e) => Err(e),
                    }
                    &&& final(self).cwd() == after_cd(old(self).root(), old(self).cwd(), answer)
                },
            old(self).wf() ==> final(self).wf(),
            out is Ok ==> final(self).wf() && is_absolute(final(self).cwd()),
    {
        let joined = self.join_client_path(new_pwd);
        let answer = canonicalize(joined.as_str());
        let ghost given = answer;
        let out = self.cd(answer);
        assert(out == match old(self).checked(given) {
            Ok(_) => Ok::<(), PathError>(()),
            Err(e) => Err(e),
        });
        out
    }

    fn joined_chars(&self, path: &str) -> (out: Vec<char>)
        ensures
            out@ == joined_path(self.root(), self.cwd(), path@),
    {
        let client = to_chars(path);
        let start: usize = if starts_with_slash(client.as_slice()) {
            1
        } else {
            0
        };
        assert(client@.skip(start as int) == strip_slash(client@));
        if start < client.len() && client[start] == '/' {
            let from = skip_slashes(client.as_slice(), start);
            join_from(self.root.as_slice(), client.as_slice(), from)
        } else {
            join_from(self.pwd.as_slice(), client.as_slice(), start)
        }
    }

    /// The server path that the client's `path` is joined to, as it is
    /// handed to the filesystem for something that exists: `joined_path`,
    /// whether or not its components climb.
    pub fn join_client_path(&self, path: &str) -> (out: String)
        ensures
            out@ == joined_path(self.root(), self.cwd(), path@),
    {
        from_chars(self.joined_chars(path).as_slice())
    }

    /// The server path that `path` stands for, whether or not it exists:
    /// `joined_path`, unless its components behind the root climb above the
    /// root, which is refused as `Traversal`.
    pub fn non_canonicalized_path(&self, path: &str) -> (out: Result<String, PathError>)
        ensures
            out matches Ok(p) ==> p@ == joined_path(self.root(), self.cwd(), path@),
            out matches Err(e) ==> e == PathError::Traversal,
            out is Ok <==> stays_below(
                self.root(),
                joined_path(self.root(), self.cwd(), path@),
            ),
            out is Ok && self.wf() ==> within(
                self.root(),
                joined_path(self.root(), self.cwd(), path@),
            ),
    {
        let joined = self.joined_chars(path);
        if self.root.len() <= joined.len() && descends(joined.as_slice(), self.root.len()) {
            proof {
                if self.wf() {
                    lemma_joined_within(self.root(), self.cwd(), path@);
                }
            }
            Ok(from_chars(joined.as_slice()))
        } else {
            Err(PathError::Traversal)
        }
    }
}

} // verus!
