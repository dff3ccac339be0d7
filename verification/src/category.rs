//! The tag that says to which part of life an event belongs.

use vstd::prelude::*;

verus! {

/// What an event is about. The three tags are all there are.
#[derive(Clone, Copy, Debug, PartialEq, Eq, Structural)]
pub enum Category {
    Home,
    Work,
    Personal,
}

impl Category {
    /// The tag as it is shown in a menu.
    pub open spec fn label_spec(self) -> Seq<char> {
        match self {
            Category::Home => "Home"@,
            Category::Work => "Work"@,
            Category::Personal => "Personal"@,
        }
    }

    /// Every category, in the order in which a menu offers them.
    pub fn all() -> (v: Vec<Category>)
        ensures
            v@ == seq![Category::Home, Category::Work, Category::Personal],
    {
        let mut v: Vec<Category> = Vec::new();
        v.push(Category::Home);
        v.push(Category::Work);
        v.push(Category::Personal);
        v
    }

    /// The tag as it is shown in a menu.
    pub fn label(&self) -> (s: &'static str)
        ensures
            s@ == self.label_spec(),
    {
        match self {
            Category::Home => "Home",
            Category::Work => "Work",
            Category::Personal => "Personal",
        }
    }
}

} // verus!
