//! Places in the file system.
use std::path::PathBuf;
use vstd::prelude::*;
use crate::text;

verus! {

/// `std::path::PathBuf`, an opaque value.
#[verifier::external_type_specification]
#[verifier::external_body]
pub struct ExPathBuf(std::path::PathBuf);

/// `std::path::PathBuf::clone`: an equal path.
pub assume_specification[ <PathBuf as Clone>::clone ](path: &PathBuf) -> (r: PathBuf)
    ensures
        r == *path,
;

/// A place below a base: the names that are joined to the base, one after the other.
#[derive(Debug, PartialEq, Eq)]
pub struct LocalPath {
    pub base: PathBuf,
    pub names: Vec<String>,
}

/// A place with its names as sequences of characters.
pub struct LocalPathView {
    pub base: PathBuf,
    pub names: Seq<Seq<char>>,
}

impl View for LocalPath {
    type V = LocalPathView;

    open spec fn view(&self) -> LocalPathView {
        LocalPathView { base: self.base, names: text::texts(self.names@) }
    }
}

/// The place of these names, below `path`.
pub open spec fn below(path: LocalPathView, names: Seq<Seq<char>>) -> LocalPathView {
    LocalPathView { base: path.base, names: path.names + names }
}

/// The folder that a place is in; none is known of a base.
pub open spec fn folder_of(path: LocalPathView) -> Option<LocalPathView> {
    if path.names.len() == 0 {
        None
    } else {
        Some(LocalPathView { base: path.base, names: path.names.drop_last() })
    }
}

impl Clone for LocalPath {
    fn clone(&self) -> (r: Self)
        ensures
            r@ == self@,
    {
        let names = clone_names(&self.names, self.names.len());
        assert(text::texts(self.names@).take(self.names@.len() as int) =~= text::texts(self.names@));
        LocalPath { base: self.base.clone(), names }
    }
}

/// The first names of a list.
fn clone_names(names: &Vec<String>, count: usize) -> (r: Vec<String>)
    requires
        count <= names@.len(),
    ensures
        text::texts(r@) == text::texts(names@).take(count as int),
{
    let mut r: Vec<String> = Vec::new();
    let mut i: usize = 0;
    while i < count
        invariant
            i <= count <= names@.len(),
            text::texts(r@) == text::texts(names@).take(i as int),
        decreases count - i,
    {
        let ghost before = r@;
        r.push(names[i].clone());
        assert(text::texts(r@) =~= text::texts(before).push(names@[i as int]@));
        assert(text::texts(names@).take(i + 1) =~= text::texts(names@).take(i as int).push(
            names@[i as int]@,
        ));
        i = i + 1;
    }
    r
}

impl LocalPath {
    /// The base itself.
    pub fn at(base: PathBuf) -> (r: Self)
        ensures
            r@ == (LocalPathView { base, names: Seq::empty() }),
    {
        let r = LocalPath { base, names: Vec::new() };
        assert(r@.names =~= Seq::<Seq<char>>::empty());
        r
    }

    /// The place with this name in the folder.
    pub fn join(&self, name: &str) -> (r: Self)
        ensures
            r@ == below(self@, seq![name@]),
    {
        let mut r = self.clone();
        let ghost before = r.names@;
        r.names.push(name.to_owned());
        assert(text::texts(r.names@) =~= text::texts(before) + seq![name@]);
        r
    }

    /// The folder that the place is in.
    pub fn parent(&self) -> (r: Option<Self>)
        ensures
            match r {
                Some(folder) => folder_of(self@) == Some(folder@),
                None => folder_of(self@) is None,
            },
    {
        if self.names.len() == 0 {
            return None;
        }
        let names = clone_names(&self.names, self.names.len() - 1);
        assert(text::texts(self.names@).take(self.names@.len() - 1) =~= text::texts(
            self.names@,
        ).drop_last());
        Some(LocalPath { base: self.base.clone(), names })
    }

    /// The last name of the place.
    pub fn file_name(&self) -> (r: Option<String>)
        ensures
            match r {
                Some(name) => self@.names.len() > 0 && name@ == self@.names.last(),
                None => self@.names.len() == 0,
            },
    {
        if self.names.len() == 0 {
            return None;
        }
        let last: usize = self.names.len() - 1;
        Some(self.names[last].clone())
    }
}

/// A place in a folder is in that folder.
pub proof fn law_a_place_is_in_its_folder(folder: LocalPathView, name: Seq<char>)
    ensures
        folder_of(below(folder, seq![name])) == Some(folder),
        below(folder, seq![name]).names.last() == name,
{
    let place = below(folder, seq![name]);
    assert(place.names.drop_last() =~= folder.names);
}

} // verus!
