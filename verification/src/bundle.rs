//! Bundles: several source files written one after another into one text, each
//! under a line that names the file it came from.

use vstd::prelude::*;
use vstd::string::*;

verus! {

/// A source file as the builder takes it: the path it is labelled with and its
/// lines, without their line ends.
#[derive(Debug)]
pub struct SourceFile {
    pub path: String,
    pub lines: Vec<String>,
}

/// The mathematical value of a [`SourceFile`].
pub ghost struct SourceFileView {
    pub path: Seq<char>,
    pub lines: Seq<Seq<char>>,
}

impl View for SourceFile {
    type V = SourceFileView;

    open spec fn view(&self) -> SourceFileView {
        SourceFileView { path: self.path@, lines: self.lines@.map_values(|l: String| l@) }
    }
}

/// The lines, each followed by a line feed.
pub open spec fn lines_text(lines: Seq<Seq<char>>) -> Seq<char>
    decreases lines.len(),
{
    if lines.len() == 0 {
        Seq::empty()
    } else {
        lines_text(lines.drop_last()) + lines.last() + "\n"@
    }
}

/// One file's part of a bundle: a blank line, the delimiter line naming the
/// path, a blank line, the file's lines, and three line feeds.
pub open spec fn file_section(file: SourceFileView) -> Seq<char> {
    "\n// ==== file path: "@ + file.path + "\n\n"@ + lines_text(file.lines) + "\n\n\n"@
}

/// The text of a bundle: the sections of its files in the order given.
pub open spec fn bundle_text(files: Seq<SourceFileView>) -> Seq<char>
    decreases files.len(),
{
    if files.len() == 0 {
        Seq::empty()
    } else {
        bundle_text(files.drop_last()) + file_section(files.last())
    }
}

/// The views of a list of source files.
pub open spec fn file_views(files: Seq<SourceFile>) -> Seq<SourceFileView> {
    files.map_values(|f: SourceFile| f@)
}

/// The bundle of two file lists put together is the two bundles put together.
pub proof fn lemma_bundle_text_concat(first: Seq<SourceFileView>, second: Seq<SourceFileView>)
    ensures
        bundle_text(first + second) == bundle_text(first) + bundle_text(second),
    decreases second.len(),
{
    if second.len() == 0 {
        assert(first + second =~= first);
        assert(bundle_text(first) + bundle_text(second) =~= bundle_text(first));
    } else {
        lemma_bundle_text_concat(first, second.drop_last());
        assert((first + second).drop_last() =~= first + second.drop_last());
        assert((first + second).last() == second.last());
        assert(bundle_text(first + second) =~= bundle_text(first) + bundle_text(second));
    }
}

fn append_lines(out: &mut String, lines: &Vec<String>)
    ensures
        final(out)@ == old(out)@ + lines_text(lines@.map_values(|l: String| l@)),
{
    let ghost all = lines@.map_values(|l: String| l@);
    let mut i: usize = 0;
    assert(all.take(0) =~= Seq::<Seq<char>>::empty());
    while i < lines.len()
        invariant
            i <= lines.len(),
            all == lines@.map_values(|l: String| l@),
            out@ == old(out)@ + lines_text(all.take(i as int)),
        decreases lines.len() - i,
    {
        out.append(lines[i].as_str());
        out.append("\n");
        proof {
            let next = all.take(i + 1);
            assert(next.drop_last() =~= all.take(i as int));
            assert(next.last() == lines@[i as int]@);
            assert(out@ =~= old(out)@ + lines_text(next));
        }
        i += 1;
    }
    assert(all.take(i as int) =~= all);
}

/// Writes the section of one file at the end of `out`.
pub fn append_section(out: &mut String, file: &SourceFile)
    ensures
        final(out)@ == old(out)@ + file_section(file@),
{
    out.append("\n// ==== file path: ");
    out.append(file.path.as_str());
    out.append("\n\n");
    append_lines(out, &file.lines);
    out.append("\n\n\n");
    assert(out@ =~= old(out)@ + file_section(file@));
}

/// Builds the text of a bundle from its files, in the order given: for each
/// file a delimiter line that names its path, then its content.
pub fn bundle_to_file(files: &Vec<SourceFile>) -> (text: String)
    ensures
        text@ == bundle_text(file_views(files@)),
{
    let ghost all = file_views(files@);
    let mut text = String::new();
    let mut i: usize = 0;
    assert(all.take(0) =~= Seq::<SourceFileView>::empty());
    while i < files.len()
        invariant
            i <= files.len(),
            all == file_views(files@),
            text@ == bundle_text(all.take(i as int)),
        decreases files.len() - i,
    {
        append_section(&mut text, &files[i]);
        proof {
            let next = all.take(i + 1);
            assert(next.drop_last() =~= all.take(i as int));
            assert(next.last() == files@[i as int]@);
        }
        i += 1;
    }
    assert(all.take(i as int) =~= all);
    text
}

} // verus!
