//! Categories of the forum.

use vstd::prelude::*;
use crate::text::opt_text;

verus! {

/// One category, as the database holds it.
#[derive(Debug, Clone, PartialEq, Eq)]
pub struct Model {
    pub id: u128,
    pub name: String,
    pub slug: String,
    pub description: Option<String>,
    pub icon: Option<String>,
    pub display_order: i32,
}

/// The mathematical value of a category.
pub struct ModelView {
    pub id: u128,
    pub name: Seq<char>,
    pub slug: Seq<char>,
    pub description: Option<Seq<char>>,
    pub icon: Option<Seq<char>>,
    pub display_order: i32,
}

impl View for Model {
    type V = ModelView;

    open spec fn view(&self) -> ModelView {
        ModelView {
            id: self.id,
            name: self.name@,
            slug: self.slug@,
            description: opt_text(self.description),
            icon: opt_text(self.icon),
            display_order: self.display_order,
        }
    }
}

} // verus!
