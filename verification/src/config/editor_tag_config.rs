use vstd::prelude::*;

use crate::config::file_loader::{FileLoader, LoaderNames};
use crate::config::listing::{listed_from_conf, spec_listed_from_conf, Listable};
use crate::config::matrix::{labeled_matrix, labeled_view, spec_labeled_matrix, HeaderKey, MatrixCell};
use crate::config::parse::FromConfig;
use crate::config::{ConfigError, ConfigParseError};
use crate::tags::{FlagKey, TagKey};

verus! {

/// Whether the editor shows a flag or tag: never (`Hidden`), in advanced
/// mode (`Advanced`), always but inactive by default (`Normal`), or always
/// and active by default (`Always`).
#[derive(Debug, Clone, Copy, PartialEq, Eq, Structural, Hash)]
pub enum TagEditorVisibility {
    Hidden,
    Advanced,
    Normal,
    Always,
}

impl Listable for TagEditorVisibility {
    open spec fn spec_list() -> Seq<Self> {
        seq![Self::Hidden, Self::Advanced, Self::Normal, Self::Always]
    }

    open spec fn spec_name(self) -> Seq<char> {
        match self {
            Self::Hidden => "Hidden"@,
            Self::Advanced => "Advanced"@,
            Self::Normal => "Normal"@,
            Self::Always => "Always"@,
        }
    }

    open spec fn spec_kind_name() -> Seq<char> {
        "TagEditorVisibility"@
    }

    fn list() -> (r: Vec<Self>) {
        vec![Self::Hidden, Self::Advanced, Self::Normal, Self::Always]
    }

    fn name(&self) -> (r: &'static str) {
        match self {
            Self::Hidden => "Hidden",
            Self::Advanced => "Advanced",
            Self::Normal => "Normal",
            Self::Always => "Always",
        }
    }

    fn kind_name() -> (r: &'static str) {
        "TagEditorVisibility"
    }
}

impl FromConfig for TagEditorVisibility {
    open spec fn spec_from_conf(s: Seq<char>, names: LoaderNames) -> Result<(Self, Seq<char>), ConfigError> {
        spec_listed_from_conf::<Self>(s)
    }

    fn from_conf<'a>(s: &'a [char], loader: &FileLoader) -> (r: Result<(Self, &'a [char]), ConfigParseError>) {
        listed_from_conf(s)
    }
}

/// A cell names how the editor shows its column's flag or tag.
impl MatrixCell for TagEditorVisibility {
    open spec fn spec_read(cell: Seq<char>, names: LoaderNames) -> Result<TagEditorVisibility, ConfigError> {
        match Self::spec_from_conf(cell, names) {
            Ok((v, _)) => Ok(v),
            Err(e) => Err(e),
        }
    }

    fn read(cell: &[char], loader: &FileLoader) -> (r: Result<TagEditorVisibility, ConfigParseError>) {
        match Self::from_conf(cell, loader) {
            Ok((v, _)) => Ok(v),
            Err(e) => Err(e),
        }
    }
}

/// A column of the editor table: a flag or a tag.
#[derive(Debug, Clone, Copy, PartialEq, Eq, Structural, Hash)]
pub enum TagColumn {
    Flag(FlagKey),
    Tag(TagKey),
}

impl FromConfig for TagColumn {
    /// A flag's name, or else a tag's; where neither fits, the tag's error.
    open spec fn spec_from_conf(s: Seq<char>, names: LoaderNames) -> Result<(Self, Seq<char>), ConfigError> {
        match FlagKey::spec_from_conf(s, names) {
            Ok((f, rest)) => Ok((TagColumn::Flag(f), rest)),
            Err(_) => match TagKey::spec_from_conf(s, names) {
                Ok((t, rest)) => Ok((TagColumn::Tag(t), rest)),
                Err(e) => Err(e),
            },
        }
    }

    fn from_conf<'a>(s: &'a [char], loader: &FileLoader) -> (r: Result<(Self, &'a [char]), ConfigParseError>) {
        match FlagKey::from_conf(s, loader) {
            Ok((f, rest)) => Ok((TagColumn::Flag(f), rest)),
            Err(_) => match TagKey::from_conf(s, loader) {
                Ok((t, rest)) => Ok((TagColumn::Tag(t), rest)),
                Err(e) => Err(e),
            },
        }
    }
}

impl HeaderKey for TagColumn {
    fn same(&self, other: &Self) -> (b: bool) {
        match (self, other) {
            (TagColumn::Flag(a), TagColumn::Flag(b)) => a.0 == b.0,
            (TagColumn::Tag(a), TagColumn::Tag(b)) => a.0 == b.0,
            _ => false,
        }
    }
}

/// The entries of one line for the flags (or else the tags): the flag's
/// or tag's index, the line's key and the cell's visibility, in the order
/// of the cells.
pub open spec fn line_entries<T>(key: T, cells: Seq<(TagColumn, TagEditorVisibility)>, flags: bool) -> Seq<(usize, T, TagEditorVisibility)>
    decreases cells.len(),
{
    if cells.len() == 0 {
        seq![]
    } else {
        let prev = line_entries(key, cells.drop_last(), flags);
        match cells.last().0 {
            TagColumn::Flag(f) => if flags { prev.push((f.0, key, cells.last().1)) } else { prev },
            TagColumn::Tag(t) => if flags { prev } else { prev.push((t.0, key, cells.last().1)) },
        }
    }
}

/// The entries of all lines, line after line.
pub open spec fn tag_entries<T>(lines: Seq<(T, Seq<(TagColumn, TagEditorVisibility)>)>, flags: bool) -> Seq<(usize, T, TagEditorVisibility)>
    decreases lines.len(),
{
    if lines.len() == 0 {
        seq![]
    } else {
        tag_entries(lines.drop_last(), flags) + line_entries(lines.last().0, lines.last().1, flags)
    }
}

/// The editor table of a kind of object: which of its flags and tags the
/// editor shows for each type, as entries of the flag's (or tag's) index,
/// the type and the visibility; a later entry for the same pair counts.
pub open spec fn spec_parse<T: FromConfig>(data: Seq<char>, names: LoaderNames) -> Result<(Seq<(usize, T, TagEditorVisibility)>, Seq<(usize, T, TagEditorVisibility)>), ConfigError> {
    match spec_labeled_matrix::<TagColumn, T, TagEditorVisibility>(data, names) {
        Err(e) => Err(e),
        Ok(lines) => Ok((tag_entries(lines, true), tag_entries(lines, false))),
    }
}

/// Reads an editor table whose header line names flags and tags and whose
/// lines start with a type: the entries for the flags, then for the tags.
pub fn parse<T: FromConfig + Copy>(data: &str, loader: &FileLoader) -> (r: Result<(Vec<(usize, T, TagEditorVisibility)>, Vec<(usize, T, TagEditorVisibility)>), ConfigParseError>)
    ensures
        match r {
            Ok((flags, tags)) => spec_parse::<T>(data@, loader@) == Ok::<(Seq<(usize, T, TagEditorVisibility)>, Seq<(usize, T, TagEditorVisibility)>), ConfigError>((flags@, tags@)),
            Err(e) => spec_parse::<T>(data@, loader@) == Err::<(Seq<(usize, T, TagEditorVisibility)>, Seq<(usize, T, TagEditorVisibility)>), ConfigError>(e@),
        },
{
    let lines = match labeled_matrix::<TagColumn, T, TagEditorVisibility>(data, loader) {
        Err(e) => return Err(e),
        Ok(l) => l,
    };
    let ghost view = labeled_view(lines@);
    let mut flags: Vec<(usize, T, TagEditorVisibility)> = Vec::new();
    let mut tags: Vec<(usize, T, TagEditorVisibility)> = Vec::new();
    let mut i: usize = 0;
    while i < lines.len()
        invariant
            i <= lines@.len(),
            view == labeled_view(lines@),
            flags@ == tag_entries(view.take(i as int), true),
            tags@ == tag_entries(view.take(i as int), false),
        decreases lines.len() - i,
    {
        let key = lines[i].0;
        let cells = &lines[i].1;
        assert(view[i as int] == (key, cells@));
        let ghost flags0 = flags@;
        let ghost tags0 = tags@;
        let mut j: usize = 0;
        while j < cells.len()
            invariant
                j <= cells@.len(),
                flags@ == flags0 + line_entries(key, cells@.take(j as int), true),
                tags@ == tags0 + line_entries(key, cells@.take(j as int), false),
            decreases cells.len() - j,
        {
            let (column, visibility) = cells[j];
            assert(cells@.take(j + 1).drop_last() =~= cells@.take(j as int));
            assert(cells@.take(j + 1).last() == (column, visibility));
            match column {
                TagColumn::Flag(f) => {
                    flags.push((f.0, key, visibility));
                },
                TagColumn::Tag(t) => {
                    tags.push((t.0, key, visibility));
                },
            }
            assert(flags@ =~= flags0 + line_entries(key, cells@.take(j + 1), true));
            assert(tags@ =~= tags0 + line_entries(key, cells@.take(j + 1), false));
            j += 1;
        }
        assert(cells@.take(cells@.len() as int) =~= cells@);
        assert(view.take(i + 1).drop_last() =~= view.take(i as int));
        assert(view.take(i + 1).last() == (key, cells@));
        i += 1;
    }
    assert(view.take(lines@.len() as int) =~= view);
    Ok((flags, tags))
}

} // verus!
