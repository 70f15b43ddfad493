//! The manifest: the list of asset files the game knows about, kept in
//! `manifest.txt` one file name per line.
use vstd::prelude::*;

use bevy::platform::collections::HashSet;

use crate::collections::{name_set, name_set_elements, name_set_insert, name_set_new, name_set_remove};
use crate::text::{has_prefix, lemma_strictly_sorted_unique, sort_names, strictly_sorted, string_views};

verus! {

/// The set of asset files and whether they have been read from disk.
pub struct Manifest {
    files: HashSet<String>,
    loaded: bool,
}

pub struct ManifestView {
    pub files: Set<Seq<char>>,
    pub loaded: bool,
}

impl View for Manifest {
    type V = ManifestView;

    closed spec fn view(&self) -> ManifestView {
        ManifestView { files: name_set(self.files), loaded: self.loaded }
    }
}

/// The folder that holds the maps.
pub open spec fn maps_folder() -> Seq<char> {
    "maps/"@
}

/// A line that is not empty, as a set of at most one entry.
pub open spec fn entry_of(line: Seq<char>) -> Set<Seq<char>> {
    if line.len() > 0 {
        Set::empty().insert(line)
    } else {
        Set::empty()
    }
}

/// A line without the carriage return of a `\r\n` ending.
pub open spec fn without_cr(line: Seq<char>) -> Seq<char> {
    if line.len() > 0 && line.last() == '\r' {
        line.drop_last()
    } else {
        line
    }
}

/// The non-empty lines of `rest`, where `current` is the part of the current
/// line already read. Lines end at `\n` (a `\r` before it is dropped); the
/// last line needs no ending. This is how `str::lines` splits text.
pub open spec fn entries_after(rest: Seq<char>, current: Seq<char>) -> Set<Seq<char>>
    decreases rest.len(),
{
    if rest.len() == 0 {
        entry_of(current)
    } else if rest[0] == '\n' {
        entry_of(without_cr(current)).union(entries_after(rest.drop_first(), Seq::empty()))
    } else {
        entries_after(rest.drop_first(), current.push(rest[0]))
    }
}

/// The file names that a manifest text lists: its non-empty lines.
pub open spec fn manifest_entries(text: Seq<char>) -> Set<Seq<char>> {
    entries_after(text, Seq::empty())
}

/// The manifest text of `files`: each name followed by a line feed, in order.
pub open spec fn manifest_text(files: Seq<Seq<char>>) -> Seq<char>
    decreases files.len(),
{
    if files.len() == 0 {
        Seq::empty()
    } else {
        files[0] + seq!['\n'] + manifest_text(files.drop_first())
    }
}

/// A name that survives being written as a line: not empty, without line
/// feed and not ending in a carriage return.
pub open spec fn writable_entry(name: Seq<char>) -> bool {
    &&& name.len() > 0
    &&& !name.contains('\n')
    &&& name.last() != '\r'
}

proof fn lemma_text_push(files: Seq<Seq<char>>, name: Seq<char>)
    ensures
        manifest_text(files.push(name)) == manifest_text(files) + name + seq!['\n'],
    decreases files.len(),
{
    if files.len() == 0 {
        assert(files.push(name).drop_first() =~= Seq::<Seq<char>>::empty());
        assert(manifest_text(files.push(name).drop_first()) == Seq::<char>::empty());
        assert(manifest_text(files.push(name)) =~= name + seq!['\n'] + Seq::<char>::empty());
        assert(manifest_text(files) + name + seq!['\n'] =~= name + seq!['\n']);
    } else {
        assert(files.push(name).drop_first() =~= files.drop_first().push(name));
        lemma_text_push(files.drop_first(), name);
        assert(manifest_text(files.push(name)) =~= files[0] + seq!['\n'] + (manifest_text(files.drop_first()) + name + seq!['\n']));
    }
}

/// Reading characters without line feed only extends the current line.
proof fn lemma_entries_within_line(line: Seq<char>, rest: Seq<char>, current: Seq<char>)
    requires
        !line.contains('\n'),
    ensures
        entries_after(line + rest, current) == entries_after(rest, current + line),
    decreases line.len(),
{
    if line.len() == 0 {
        assert(line + rest =~= rest);
        assert(current + line =~= current);
    } else {
        assert(line[0] != '\n') by {
            if line[0] == '\n' {
                assert(line.contains('\n'));
            }
        }
        assert((line + rest).drop_first() =~= line.drop_first() + rest);
        assert(!line.drop_first().contains('\n')) by {
            if line.drop_first().contains('\n') {
                let k = choose|k: int| 0 <= k < line.drop_first().len() && line.drop_first()[k] == '\n';
                assert(line[k + 1] == '\n');
            }
        }
        lemma_entries_within_line(line.drop_first(), rest, current.push(line[0]));
        assert(current.push(line[0]) + line.drop_first() =~= current + line);
    }
}

/// Reading back the text of `files` lists exactly those files.
pub proof fn lemma_manifest_text_entries(files: Seq<Seq<char>>)
    requires
        forall|i: int| 0 <= i < files.len() ==> writable_entry(#[trigger] files[i]),
    ensures
        manifest_entries(manifest_text(files)) == files.to_set(),
    decreases files.len(),
{
    if files.len() == 0 {
        assert(files.to_set() =~= Set::<Seq<char>>::empty());
    } else {
        let name = files[0];
        let rest = manifest_text(files.drop_first());
        assert(writable_entry(files[0]));
        assert forall|i: int| 0 <= i < files.drop_first().len() implies writable_entry(#[trigger] files.drop_first()[i]) by {
            assert(files.drop_first()[i] == files[i + 1]);
        }
        lemma_manifest_text_entries(files.drop_first());
        assert(manifest_text(files) =~= name + (seq!['\n'] + rest));
        lemma_entries_within_line(name, seq!['\n'] + rest, Seq::empty());
        assert(Seq::<char>::empty() + name =~= name);
        assert((seq!['\n'] + rest).drop_first() =~= rest);
        assert(without_cr(name) == name);
        assert(files.to_set() =~= Set::empty().insert(name).union(files.drop_first().to_set())) by {
            assert forall|x: Seq<char>| files.to_set().contains(x) <==> Set::empty().insert(name).union(files.drop_first().to_set()).contains(x) by {
                if files.to_set().contains(x) {
                    let k = choose|k: int| 0 <= k < files.len() && files[k] == x;
                    if k > 0 {
                        assert(files.drop_first()[k - 1] == x);
                    }
                }
                if files.drop_first().to_set().contains(x) {
                    let k = choose|k: int| 0 <= k < files.drop_first().len() && files.drop_first()[k] == x;
                    assert(files[k + 1] == x);
                }
                if x == name {
                    assert(files[0] == x);
                }
            }
        }
    }
}

/// What a manifest writes, a fresh manifest reads back: loading the text of
/// the files in any order into an empty manifest gives the same files, as
/// long as each name can be written on a line of its own.
pub proof fn lemma_content_reloads(files: Set<Seq<char>>, order: Seq<Seq<char>>)
    requires
        order.to_set() == files,
        forall|name: Seq<char>| files.contains(name) ==> writable_entry(name),
    ensures
        Set::<Seq<char>>::empty().union(manifest_entries(manifest_text(order))) == files,
{
    assert forall|i: int| 0 <= i < order.len() implies writable_entry(#[trigger] order[i]) by {
        assert(order.to_set().contains(order[i]));
    }
    lemma_manifest_text_entries(order);
    assert(Set::<Seq<char>>::empty().union(files) =~= files);
}

/// The text a manifest writes is fixed by its files: every strictly sorted
/// order of the same files gives the same text.
pub proof fn lemma_content_fixed_by_files(files: Set<Seq<char>>, first: Seq<Seq<char>>, second: Seq<Seq<char>>)
    requires
        strictly_sorted(first),
        first.to_set() == files,
        strictly_sorted(second),
        second.to_set() == files,
    ensures
        manifest_text(first) == manifest_text(second),
{
    lemma_strictly_sorted_unique(first, second);
}

/// One step of reading: a character that is not a line feed joins the line.
proof fn lemma_entries_step_char(text: Seq<char>, i: int, start: int)
    requires
        0 <= start <= i < text.len(),
        text[i] != '\n',
    ensures
        entries_after(text.skip(i), text.subrange(start, i)) == entries_after(text.skip(i + 1), text.subrange(start, i + 1)),
{
    assert(text.skip(i).drop_first() =~= text.skip(i + 1));
    assert(text.subrange(start, i).push(text[i]) =~= text.subrange(start, i + 1));
}

/// One step of reading: a line feed ends the line.
proof fn lemma_entries_step_newline(text: Seq<char>, i: int, start: int)
    requires
        0 <= start <= i < text.len(),
        text[i] == '\n',
    ensures
        entries_after(text.skip(i), text.subrange(start, i)) == entry_of(without_cr(text.subrange(start, i))).union(
            entries_after(text.skip(i + 1), text.subrange(i + 1, i + 1)),
        ),
{
    assert(text.skip(i).drop_first() =~= text.skip(i + 1));
    assert(text.subrange(i + 1, i + 1) =~= Seq::<char>::empty());
}

impl Manifest {
    /// An empty manifest that has not been read yet.
    pub fn new() -> (manifest: Manifest)
        ensures
            manifest@.files == Set::<Seq<char>>::empty(),
            !manifest@.loaded,
    {
        Manifest { files: name_set_new(), loaded: false }
    }

    pub fn files(&self) -> (files: &HashSet<String>)
        ensures
            name_set(*files) == self@.files,
    {
        &self.files
    }

    /// The files that lie in the maps folder, each once, in no stated order.
    pub fn map_files(&self) -> (map_files: Vec<String>)
        ensures
            forall|i: int, j: int| 0 <= i < j < map_files@.len() ==> map_files@[i]@ != map_files@[j]@,
            forall|i: int| 0 <= i < map_files@.len() ==> self@.files.contains(#[trigger] map_files@[i]@)
                && maps_folder().is_prefix_of(map_files@[i]@),
            forall|file: Seq<char>| self@.files.contains(file) && maps_folder().is_prefix_of(file)
                ==> exists|i: int| 0 <= i < map_files@.len() && #[trigger] map_files@[i]@ == file,
    {
        let all = name_set_elements(&self.files);
        let mut map_files: Vec<String> = Vec::new();
        let ghost mut picked: Seq<int> = Seq::empty();
        for i in 0..all.len()
            invariant
                picked.len() == map_files@.len(),
                forall|k: int| 0 <= k < picked.len() ==> 0 <= #[trigger] picked[k] < i && map_files@[k]@ == all@[picked[k]]@,
                forall|k: int, l: int| 0 <= k < l < picked.len() ==> picked[k] < picked[l],
                forall|k: int| 0 <= k < map_files@.len() ==> maps_folder().is_prefix_of(#[trigger] map_files@[k]@),
                forall|j: int| 0 <= j < i && maps_folder().is_prefix_of(#[trigger] all@[j]@) ==> exists|k: int| 0 <= k < picked.len() && picked[k] == j,
        {
            proof { reveal_strlit("maps/"); }
            let ghost old_picked = picked;
            if has_prefix(all[i].as_str(), "maps/") {
                map_files.push(all[i].clone());
                proof {
                    picked = picked.push(i as int);
                    assert(picked[picked.len() - 1] == i);
                }
            }
            proof {
                assert forall|j: int| 0 <= j < i + 1 && maps_folder().is_prefix_of(#[trigger] all@[j]@)
                    implies exists|k: int| 0 <= k < picked.len() && picked[k] == j by {
                    if j < i {
                        let k = choose|k: int| 0 <= k < old_picked.len() && old_picked[k] == j;
                        assert(picked[k] == j);
                    } else {
                        assert(picked[picked.len() - 1] == i);
                    }
                }
            }
        }
        proof {
            assert forall|k: int| 0 <= k < map_files@.len() implies self@.files.contains(#[trigger] map_files@[k]@)
                && maps_folder().is_prefix_of(map_files@[k]@) by {
                assert(map_files@[k]@ == all@[picked[k]]@);
            }
            assert forall|a: int, b: int| 0 <= a < b < map_files@.len() implies map_files@[a]@ != map_files@[b]@ by {
                assert(picked[a] < picked[b]);
            }
            assert forall|file: Seq<char>| self@.files.contains(file) && maps_folder().is_prefix_of(file)
                implies exists|i: int| 0 <= i < map_files@.len() && #[trigger] map_files@[i]@ == file by {
                let j = choose|j: int| 0 <= j < all@.len() && #[trigger] all@[j]@ == file;
                let k = choose|k: int| 0 <= k < picked.len() && picked[k] == j;
                assert(map_files@[k]@ == file);
            }
        }
        map_files
    }

    pub fn insert_file(&mut self, file: String)
        ensures
            final(self)@ == (ManifestView { files: old(self)@.files.insert(file@), ..old(self)@ }),
    {
        name_set_insert(&mut self.files, file);
    }

    pub fn remove_file(&mut self, file: String)
        ensures
            final(self)@ == (ManifestView { files: old(self)@.files.remove(file@), ..old(self)@ }),
    {
        name_set_remove(&mut self.files, file.as_str());
    }

    pub fn loaded(&self) -> (loaded: bool)
        ensures
            loaded == self@.loaded,
    {
        self.loaded
    }

    /// Takes in the text of `manifest.txt`: every non-empty line names a
    /// file; the manifest is then loaded.
    pub fn load_content(&mut self, content: &str)
        ensures
            final(self)@.files == old(self)@.files.union(manifest_entries(content@)),
            final(self)@.loaded,
    {
        let len = content.unicode_len();
        let ghost text = content@;
        let ghost initial = self@.files;
        let mut start: usize = 0;
        assert(text.skip(0) =~= text);
        assert(text.subrange(0, 0) =~= Seq::<char>::empty());
        for i in 0..len
            invariant
                len == text.len(),
                text == content@,
                start <= i,
                name_set(self.files).union(entries_after(text.skip(i as int), text.subrange(start as int, i as int)))
                    == initial.union(manifest_entries(text)),
        {
            if content.get_char(i) == '\n' {
                proof { lemma_entries_step_newline(text, i as int, start as int); }
                let line = content.substring_char(start, i);
                let line_len = line.unicode_len();
                let entry = if line_len > 0 && line.get_char(line_len - 1) == '\r' {
                    line.substring_char(0, line_len - 1)
                } else {
                    line
                };
                proof {
                    assert(line@ == text.subrange(start as int, i as int));
                    if line_len > 0 && line@.last() == '\r' {
                        assert(entry@ =~= line@.drop_last());
                    }
                    assert(entry@ == without_cr(line@));
                }
                if entry.unicode_len() > 0 {
                    name_set_insert(&mut self.files, String::from_str(entry));
                    proof {
                        assert(entry_of(entry@) =~= Set::empty().insert(entry@));
                    }
                } else {
                    proof {
                        assert(entry_of(entry@) =~= Set::<Seq<char>>::empty());
                    }
                }
                start = i + 1;
            } else {
                proof { lemma_entries_step_char(text, i as int, start as int); }
            }
        }
        if start < len {
            let line = content.substring_char(start, len);
            name_set_insert(&mut self.files, String::from_str(line));
            proof {
                assert(text.skip(len as int) =~= Seq::<char>::empty());
                assert(entry_of(line@) =~= Set::empty().insert(line@));
            }
        } else {
            proof {
                assert(text.skip(len as int) =~= Seq::<char>::empty());
                assert(text.subrange(start as int, len as int) =~= Seq::<char>::empty());
                assert(entry_of(Seq::<char>::empty()) =~= Set::<Seq<char>>::empty());
            }
        }
        self.loaded = true;
        proof {
            assert(self@.files =~= initial.union(manifest_entries(text)));
        }
    }

    /// The text of `manifest.txt` for these files: their names in the order
    /// of `str`, each followed by a line feed.
    pub fn content(&self) -> (content: String)
        ensures
            exists|order: Seq<Seq<char>>| #[trigger] strictly_sorted(order) && order.to_set() == self@.files
                && content@ == manifest_text(order),
    {
        let all = name_set_elements(&self.files);
        let sorted = sort_names(&all);
        let mut content = String::new();
        let ghost order = string_views(sorted@);
        for i in 0..sorted.len()
            invariant
                order == string_views(sorted@),
                content@ == manifest_text(order.take(i as int)),
        {
            proof {
                assert(order.take(i + 1) =~= order.take(i as int).push(order[i as int]));
                lemma_text_push(order.take(i as int), order[i as int]);
            }
            content.append(sorted[i].as_str());
            content.append("\n");
            proof { reveal_strlit("\n"); }
        }
        proof {
            assert(order.take(sorted@.len() as int) =~= order);
            assert forall|x: Seq<char>| #[trigger] order.to_set().contains(x) <==> self@.files.contains(x) by {
                if self@.files.contains(x) {
                    let j = choose|j: int| 0 <= j < all@.len() && #[trigger] all@[j]@ == x;
                    assert(string_views(all@)[j] == x);
                    assert(string_views(all@).to_set().contains(x));
                }
                if order.to_set().contains(x) {
                    assert(string_views(all@).to_set().contains(x));
                    let j = choose|j: int| 0 <= j < all@.len() && string_views(all@)[j] == x;
                    assert(all@[j]@ == x);
                }
            }
            assert(order.to_set() =~= self@.files);
        }
        content
    }
}

} // verus!
