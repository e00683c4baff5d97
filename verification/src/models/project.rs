//! Projects and the list of the recently used ones.

use vstd::prelude::*;

verus! {

/// A project: its name and the directory it lives in.
#[derive(Clone, Debug, PartialEq, Eq)]
pub struct Project {
    pub name: String,
    pub path: String,
}

/// A [`Project`] as a mathematical value.
pub struct ProjectView {
    pub name: Seq<char>,
    pub path: Seq<char>,
}

impl View for Project {
    type V = ProjectView;

    open spec fn view(&self) -> ProjectView {
        ProjectView { name: self.name@, path: self.path@ }
    }
}

/// The frameworks that a project can be built with.
#[derive(Clone, Copy, Debug, PartialEq, Eq, Structural)]
pub enum ProjectFramework {
    EspIdf,
}

} // verus!
