use vstd::prelude::*;
use crate::ids::{Id, fresh_id};
use crate::text::copy_text;

verus! {

/// A category of income or expense; one without a user is shared.
#[derive(Debug)]
pub struct Category {
    pub id: Id,
    pub user_id: Option<Id>,
    pub name: String,
    pub type_: String,
}

/// A category as the API shows it.
#[derive(Debug)]
pub struct CategoryResponse {
    pub id: Id,
    pub name: String,
    pub type_: String,
}

/// Body of a request that creates a category.
#[derive(Debug)]
pub struct CreateCategoryRequest {
    pub name: String,
    pub type_: String,
}

/// Body of a request that renames or retypes a category.
#[derive(Debug)]
pub struct UpdateCategoryRequest {
    pub name: String,
    pub type_: String,
}

impl CategoryResponse {
    /// The API form of a category.
    pub fn from(c: Category) -> (r: CategoryResponse)
        ensures
            r.id == c.id,
            r.name == c.name,
            r.type_ == c.type_,
    {
        CategoryResponse { id: c.id, name: c.name, type_: c.type_ }
    }

    /// A copy of the response.
    pub fn duplicate(&self) -> (r: CategoryResponse)
        ensures
            r.id == self.id,
            r.name@ == self.name@,
            r.type_@ == self.type_@,
    {
        CategoryResponse { id: self.id, name: copy_text(&self.name), type_: copy_text(&self.type_) }
    }
}

/// Message when a category does not exist.
pub open spec fn category_not_found_text() -> Seq<char> {
    "Category not found"@
}

/// A new shared category with the given identifier.
pub fn new_category(id: Id, name: String, type_: String) -> (c: Category)
    ensures
        c.id == id,
        c.user_id is None,
        c.name == name,
        c.type_ == type_,
{
    Category { id, user_id: None, name, type_ }
}

/// A new shared category with a fresh identifier; it is what the
/// repository is asked to save.
pub fn create_category(name: String, type_: String) -> (c: Category)
    ensures
        c.user_id is None,
        c.name == name,
        c.type_ == type_,
{
    new_category(fresh_id(), name, type_)
}

/// The category to save when it is renamed or retyped; one that was not
/// found is refused.
pub fn update_category(found: Option<Category>, name: String, type_: String) -> (r: Result<Category, String>)
    ensures
        match found {
            None => r matches Err(e) && e@ == category_not_found_text(),
            Some(c) => r matches Ok(d) && d.id == c.id && d.user_id == c.user_id && d.name == name
                && d.type_ == type_,
        },
{
    match found {
        None => Err(String::from_str("Category not found")),
        Some(c) => Ok(Category { name, type_, ..c }),
    }
}

} // verus!
