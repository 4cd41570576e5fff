//! Source paths and the output paths derived from them.
//!
//! A path here is relative text with `/` between its components. Its file
//! name is what follows the last `/`; the stem of a file name is what stands
//! before its last `.`, unless that `.` opens the name.

use crate::text::{chars_of, join2, join3, same_text, slice_text};
use vstd::prelude::*;

verus! {

/// The last position of `c` in `s`, or -1 where `s` holds no `c`.
pub open spec fn last_index_of(s: Seq<char>, c: char) -> int
    decreases s.len(),
{
    if s.len() == 0 {
        -1
    } else if s.last() == c {
        s.len() - 1
    } else {
        last_index_of(s.drop_last(), c)
    }
}

/// What follows the last `/` of `path`: all of it where it holds none.
pub open spec fn file_name(path: Seq<char>) -> Seq<char> {
    path.subrange(last_index_of(path, '/') + 1, path.len() as int)
}

/// What stands before the last `/` of `path`: nothing where it holds none.
pub open spec fn parent_dir(path: Seq<char>) -> Seq<char> {
    if last_index_of(path, '/') < 0 {
        Seq::empty()
    } else {
        path.subrange(0, last_index_of(path, '/'))
    }
}

/// The file name without its extension.
pub open spec fn file_stem(name: Seq<char>) -> Seq<char> {
    if last_index_of(name, '.') <= 0 {
        name
    } else {
        name.subrange(0, last_index_of(name, '.'))
    }
}

/// What follows the last `.` of a file name, if that `.` does not open it.
pub open spec fn extension(name: Seq<char>) -> Option<Seq<char>> {
    if last_index_of(name, '.') <= 0 {
        None
    } else {
        Some(name.subrange(last_index_of(name, '.') + 1, name.len() as int))
    }
}

/// Whether `path` names a Markdown source: its extension is `md`, in lower
/// case.
pub open spec fn is_markdown(path: Seq<char>) -> bool {
    extension(file_name(path)) == Some("md"@)
}

/// The slug of the page at `path`: the stem of its file name, and `index`
/// where the path names no file.
pub open spec fn slug_of(path: Seq<char>) -> Seq<char> {
    if file_name(path).len() == 0 || file_name(path) == ".."@ {
        "index"@
    } else {
        file_stem(file_name(path))
    }
}

/// The file that a page is written to, inside its directory: `index.html`
/// for a source named `index`, else the slug with `.html`.
pub open spec fn output_file(relative: Seq<char>, slug: Seq<char>) -> Seq<char> {
    if file_stem(file_name(relative)) == "index"@ {
        "index.html"@
    } else {
        slug + ".html"@
    }
}

/// Where a page is written to, below the output directory: the directory of
/// its source, then its output file.
pub open spec fn output_path(relative: Seq<char>, slug: Seq<char>) -> Seq<char> {
    if parent_dir(relative).len() == 0 {
        output_file(relative, slug)
    } else {
        parent_dir(relative) + seq!['/'] + output_file(relative, slug)
    }
}

/// The position found by `last_index_of` lies in the text and holds `c`, and
/// no later position does.
pub proof fn lemma_last_index_of(s: Seq<char>, c: char)
    ensures
        -1 <= last_index_of(s, c) < s.len(),
        last_index_of(s, c) >= 0 ==> s[last_index_of(s, c)] == c,
        forall|j: int| last_index_of(s, c) < j < s.len() ==> s[j] != c,
    decreases s.len(),
{
    if s.len() > 0 && s.last() != c {
        lemma_last_index_of(s.drop_last(), c);
        assert forall|j: int| last_index_of(s, c) < j < s.len() implies s[j] != c by {
            if j < s.len() - 1 {
                assert(s.drop_last()[j] == s[j]);
            }
        }
    }
}

/// A position that holds `c` and is followed by no other is the last one.
pub proof fn lemma_last_index_unique(s: Seq<char>, c: char, at: int)
    requires
        -1 <= at < s.len(),
        at >= 0 ==> s[at] == c,
        forall|j: int| at < j < s.len() ==> s[j] != c,
    ensures
        last_index_of(s, c) == at,
{
    lemma_last_index_of(s, c);
}

/// What follows a `/` holds no `/` of its own, so the last `/` of
/// `dir + "/" + name` is the one between them: the file name is `name`, the
/// directory is `dir`.
pub proof fn lemma_path_parts(dir: Seq<char>, name: Seq<char>)
    requires
        !name.contains('/'),
    ensures
        file_name(dir + seq!['/'] + name) == name,
        parent_dir(dir + seq!['/'] + name) == dir,
{
    let path = dir + seq!['/'] + name;
    let at = dir.len() as int;
    assert forall|j: int| at < j < path.len() implies path[j] != '/' by {
        assert(path[j] == name[j - at - 1]);
        assert(name.contains(name[j - at - 1]));
    }
    lemma_last_index_unique(path, '/', at);
    assert(path.subrange(at + 1, path.len() as int) =~= name);
    assert(path.subrange(0, at) =~= dir);
}

/// The slug leaves the directory out: two sources of one file name share
/// their slug, whatever directories they lie in.
pub proof fn lemma_slug_ignores_directory(first: Seq<char>, second: Seq<char>, name: Seq<char>)
    requires
        !name.contains('/'),
    ensures
        slug_of(first + seq!['/'] + name) == slug_of(second + seq!['/'] + name),
        slug_of(first + seq!['/'] + name) == slug_of(name),
{
    lemma_path_parts(first, name);
    lemma_path_parts(second, name);
    assert forall|j: int| -1 < j < name.len() implies name[j] != '/' by {
        assert(name.contains(name[j]));
    }
    lemma_last_index_unique(name, '/', -1);
    assert(name.subrange(0, name.len() as int) =~= name);
}

/// The output path keeps the directory: the page of a source in the
/// directory `dir` is written into `dir`, and so two sources of one file name
/// in two directories are written to two files.
pub proof fn lemma_output_keeps_directory(dir: Seq<char>, name: Seq<char>, slug: Seq<char>)
    requires
        !name.contains('/'),
        dir.len() > 0,
    ensures
        output_path(dir + seq!['/'] + name, slug) == dir + seq!['/'] + output_file(name, slug),
        output_file(dir + seq!['/'] + name, slug) == output_file(name, slug),
        parent_dir(output_path(dir + seq!['/'] + name, slug)) == dir <== !output_file(
            name,
            slug,
        ).contains('/'),
{
    lemma_path_parts(dir, name);
    lemma_slug_ignores_directory(dir, dir, name);
    assert forall|j: int| -1 < j < name.len() implies name[j] != '/' by {
        assert(name.contains(name[j]));
    }
    lemma_last_index_unique(name, '/', -1);
    assert(name.subrange(0, name.len() as int) =~= name);
    assert(file_name(name) == name);
    if !output_file(name, slug).contains('/') {
        lemma_path_parts(dir, output_file(name, slug));
    }
}

/// The last position of `c` in `chars`.
pub fn last_index(chars: &Vec<char>, c: char) -> (found: Option<usize>)
    ensures
        match found {
            Some(at) => at < chars.len() && at as int == last_index_of(chars@, c),
            None => last_index_of(chars@, c) == -1,
        },
{
    let mut at: usize = chars.len();
    while at > 0
        invariant
            at <= chars.len(),
            forall|j: int| at <= j < chars.len() ==> chars@[j] != c,
        decreases at,
    {
        at -= 1;
        if chars[at] == c {
            proof {
                lemma_last_index_unique(chars@, c, at as int);
            }
            return Some(at);
        }
    }
    proof {
        lemma_last_index_unique(chars@, c, -1);
    }
    None
}

/// What follows the last `/` of `path`.
pub fn file_name_of(path: &str) -> (name: String)
    ensures
        name@ == file_name(path@),
{
    let chars = chars_of(path);
    let start: usize = match last_index(&chars, '/') {
        Some(at) => at + 1,
        None => 0,
    };
    slice_text(path, start, chars.len())
}

/// What stands before the last `/` of `path`.
pub fn parent_of(path: &str) -> (dir: String)
    ensures
        dir@ == parent_dir(path@),
{
    let chars = chars_of(path);
    match last_index(&chars, '/') {
        Some(at) => slice_text(path, 0, at),
        None => String::new(),
    }
}

/// The stem of the file name `name`.
pub fn stem_of(name: &str) -> (stem: String)
    ensures
        stem@ == file_stem(name@),
{
    let chars = chars_of(name);
    match last_index(&chars, '.') {
        Some(dot) => if dot == 0 {
            name.to_owned()
        } else {
            slice_text(name, 0, dot)
        },
        None => name.to_owned(),
    }
}

/// The extension of the file name `name`.
pub fn extension_of(name: &str) -> (ext: Option<String>)
    ensures
        match ext {
            Some(e) => extension(name@) == Some(e@),
            None => extension(name@) is None,
        },
{
    let chars = chars_of(name);
    match last_index(&chars, '.') {
        Some(dot) => if dot == 0 {
            None
        } else {
            Some(slice_text(name, dot + 1, chars.len()))
        },
        None => None,
    }
}

/// Whether the build takes `path` for a page: its extension is `md`, in
/// lower case. Every other file is passed over.
pub fn is_markdown_file(path: &str) -> (selected: bool)
    ensures
        selected == is_markdown(path@),
{
    let name = file_name_of(path);
    match extension_of(name.as_str()) {
        Some(ext) => same_text(ext.as_str(), "md"),
        None => false,
    }
}

/// The slug of the page at `path`: its file name without directory and
/// without extension. Two sources of one name in two directories share their
/// slug.
pub fn slug_for(path: &str) -> (slug: String)
    ensures
        slug@ == slug_of(path@),
{
    let name = file_name_of(path);
    let chars = chars_of(name.as_str());
    if chars.len() == 0 || same_text(name.as_str(), "..") {
        "index".to_owned()
    } else {
        stem_of(name.as_str())
    }
}

/// Where the page of the source at `relative` is written, below the output
/// directory. The directory of the source is kept; a source named `index`
/// becomes `index.html`, any other the slug with `.html`.
pub fn output_path_for(relative: &str, slug: &str) -> (path: String)
    ensures
        path@ == output_path(relative@, slug@),
{
    let name = file_name_of(relative);
    let stem = stem_of(name.as_str());
    let file = if same_text(stem.as_str(), "index") {
        "index.html".to_owned()
    } else {
        join2(slug, ".html")
    };
    let dir = parent_of(relative);
    let dir_chars = chars_of(dir.as_str());
    if dir_chars.len() == 0 {
        file
    } else {
        proof {
            reveal_strlit("/");
            assert("/"@ =~= seq!['/']);
        }
        join3(dir.as_str(), "/", file.as_str())
    }
}

} // verus!
