//! From the listing of a directory to the configuration, or to the reason
//! why there is none.

use crate::document::{document, render_document};
use vstd::prelude::*;

verus! {

/// What listing a directory gave for one of its entries.
#[derive(Debug, PartialEq, Eq)]
pub enum ListedEntry {
    /// The file name of the entry, without any directory before it.
    Name(String),
    /// The entry could not be read; the cause in the system's words.
    Unreadable(String),
    /// The entry's name is no text; a rendering that identifies the entry.
    NotText(String),
}

/// Why no configuration was made.
#[derive(Debug, PartialEq, Eq)]
pub enum RenderError {
    /// The directory, or an entry of it, could not be read; the cause.
    Io(String),
    /// The name of an entry is no text; a rendering of that entry.
    PathEncoding(String),
}

/// A `RenderError` with its texts as sequences of characters.
pub ghost enum RenderErrorView {
    Io(Seq<char>),
    PathEncoding(Seq<char>),
}

impl View for RenderError {
    type V = RenderErrorView;

    open spec fn view(&self) -> RenderErrorView {
        match self {
            RenderError::Io(cause) => RenderErrorView::Io(cause@),
            RenderError::PathEncoding(entry) => RenderErrorView::PathEncoding(entry@),
        }
    }
}

impl RenderErrorView {
    /// The words that report the error.
    pub open spec fn message(self) -> Seq<char> {
        match self {
            RenderErrorView::Io(cause) => cause,
            RenderErrorView::PathEncoding(entry) => "Path error in path "@ + entry,
        }
    }
}

impl RenderError {
    /// The words that report the error.
    pub fn message(&self) -> (text: String)
        ensures
            text@ == self@.message(),
    {
        match self {
            RenderError::Io(cause) => cause.clone(),
            RenderError::PathEncoding(entry) => {
                let mut text = String::new();
                text.append("Path error in path ");
                text.append(entry.as_str());
                text
            },
        }
    }
}

/// The error that an entry stands for, if it has no name.
pub open spec fn failure(entry: ListedEntry) -> Option<RenderErrorView> {
    match entry {
        ListedEntry::Name(name) => None,
        ListedEntry::Unreadable(cause) => Some(RenderErrorView::Io(cause@)),
        ListedEntry::NotText(rendering) => Some(RenderErrorView::PathEncoding(rendering@)),
    }
}

/// The entry at `at` has no name, and every entry before it has one.
pub open spec fn first_failure(entries: Seq<ListedEntry>, at: int) -> bool {
    &&& 0 <= at < entries.len()
    &&& !(entries[at] is Name)
    &&& forall|before: int| 0 <= before < at ==> #[trigger] entries[before] is Name
}

/// The names of the entries, in the order of the listing.
pub open spec fn listed_names(entries: Seq<ListedEntry>) -> Seq<Seq<char>> {
    Seq::new(
        entries.len(),
        |at: int|
            match entries[at] {
                ListedEntry::Name(name) => name@,
                _ => Seq::empty(),
            },
    )
}

/// Every entry has a name.
pub open spec fn all_named(entries: Seq<ListedEntry>) -> bool {
    forall|at: int| 0 <= at < entries.len() ==> #[trigger] entries[at] is Name
}

/// Collects the names of the entries in the listing's order, or gives the
/// error of the first entry without a name.
pub fn entry_names(entries: &Vec<ListedEntry>) -> (collected: Result<Vec<String>, RenderError>)
    ensures
        match collected {
            Ok(names) => all_named(entries@) && names.deep_view() == listed_names(entries@),
            Err(error) => exists|at: int|
                #[trigger] first_failure(entries@, at) && failure(entries[at]) == Some(error@),
        },
{
    let mut names: Vec<String> = Vec::new();
    let mut at: usize = 0;
    while at < entries.len()
        invariant
            at <= entries.len(),
            forall|before: int| 0 <= before < at ==> #[trigger] entries@[before] is Name,
            names.deep_view() == listed_names(entries@).take(at as int),
        decreases entries.len() - at,
    {
        match &entries[at] {
            ListedEntry::Name(name) => {
                let ghost collected = names.deep_view();
                names.push(name.clone());
                assert(names.deep_view() == collected.push(name@));
            },
            ListedEntry::Unreadable(cause) => {
                assert(first_failure(entries@, at as int));
                return Err(RenderError::Io(cause.clone()));
            },
            ListedEntry::NotText(rendering) => {
                assert(first_failure(entries@, at as int));
                return Err(RenderError::PathEncoding(rendering.clone()));
            },
        }
        at = at + 1;
    }
    assert(names.deep_view() == listed_names(entries@));
    Ok(names)
}

/// The text that was made, or the error in its place, as sequences of
/// characters.
pub open spec fn made_view(made: Result<String, RenderError>) -> Result<
    Seq<char>,
    RenderErrorView,
> {
    match made {
        Ok(text) => Ok(text@),
        Err(error) => Err(error@),
    }
}

/// `made` is what belongs to the listing: for a directory that could not
/// be listed, the cause as an I/O error; for entries that all have names,
/// the document of those names; else the error of the first entry
/// without a name.
pub open spec fn is_rendering(
    program_path: Seq<char>,
    input_directory: Seq<char>,
    listing: Result<Vec<ListedEntry>, String>,
    made: Result<Seq<char>, RenderErrorView>,
) -> bool {
    match listing {
        Err(cause) => made == Err::<Seq<char>, RenderErrorView>(RenderErrorView::Io(cause@)),
        Ok(entries) => match made {
            Ok(text) => {
                &&& all_named(entries@)
                &&& text == document(program_path, input_directory, listed_names(entries@))
            },
            Err(error) => exists|at: int|
                #[trigger] first_failure(entries@, at) && failure(entries[at]) == Some(error),
        },
    }
}

/// Makes the configuration for the directory `input_directory` from its
/// `listing`, which is either the entries in the order in which the system
/// gave them, or the cause for which the directory could not be listed.
///
/// There is a configuration exactly if the directory was listed and every
/// entry has a name; it then holds one module line for each entry, in the
/// listing's order, which is kept as it is. Otherwise nothing is made, and
/// the error is that of the listing, or that of the first entry without a
/// name.
pub fn create_grub_cfg_string(
    program_path: &str,
    input_directory: &str,
    listing: &Result<Vec<ListedEntry>, String>,
) -> (made: Result<String, RenderError>)
    ensures
        is_rendering(program_path@, input_directory@, *listing, made_view(made)),
{
    match listing {
        Err(cause) => Err(RenderError::Io(cause.clone())),
        Ok(entries) => {
            match entry_names(entries) {
                Err(error) => Err(error),
                Ok(names) => Ok(render_document(program_path, input_directory, &names)),
            }
        },
    }
}

/// A listing has one rendering: whatever is made twice of the same
/// program path, directory path and listing is the same both times,
/// character for character, be it the document or the error.
pub proof fn lemma_one_rendering(
    program_path: Seq<char>,
    input_directory: Seq<char>,
    listing: Result<Vec<ListedEntry>, String>,
    first: Result<Seq<char>, RenderErrorView>,
    second: Result<Seq<char>, RenderErrorView>,
)
    requires
        is_rendering(program_path, input_directory, listing, first),
        is_rendering(program_path, input_directory, listing, second),
    ensures
        first == second,
{
}

/// A configuration is made exactly of a listed directory whose entries
/// all have names.
pub proof fn lemma_made_iff_all_named(
    program_path: Seq<char>,
    input_directory: Seq<char>,
    listing: Result<Vec<ListedEntry>, String>,
    made: Result<Seq<char>, RenderErrorView>,
)
    requires
        is_rendering(program_path, input_directory, listing, made),
    ensures
        made is Ok <==> (listing matches Ok(entries) && all_named(entries@)),
{
}

} // verus!
