//! Categories and subcategories: reading them, and the administrators'
//! changes to them.

use vstd::prelude::*;
use crate::error::{AppError, AppErrorView};
use crate::ids::{format_id, parse_id, uuid_parsed, uuid_text};
use crate::models::{category, subcategory};
use crate::text::opt_text;
use crate::utils::string::{slug_of, slugified};

verus! {

/// A category as it is shown, with its subcategories.
#[derive(Debug, Clone, PartialEq, Eq)]
pub struct CategoryResponse {
    pub id: String,
    pub name: String,
    pub slug: String,
    pub description: Option<String>,
    pub icon: Option<String>,
    pub display_order: i32,
    pub subcategories: Vec<SubcategoryResponse>,
}

/// A subcategory as it is shown.
#[derive(Debug, Clone, PartialEq, Eq)]
pub struct SubcategoryResponse {
    pub id: String,
    pub category_id: String,
    pub name: String,
    pub slug: String,
    pub description: String,
    pub icon: Option<String>,
    pub display_order: i32,
}

/// A request for a new category.
#[derive(Debug, Clone, PartialEq, Eq)]
pub struct CreateCategoryRequest {
    pub name: String,
    pub description: String,
    pub icon: Option<String>,
    pub display_order: Option<i32>,
}

/// A change to a category: only the fields that are there change.
#[derive(Debug, Clone, PartialEq, Eq)]
pub struct UpdateCategoryRequest {
    pub name: Option<String>,
    pub description: Option<String>,
    pub icon: Option<String>,
    pub display_order: Option<i32>,
}

/// A request for a new subcategory.
#[derive(Debug, Clone, PartialEq, Eq)]
pub struct CreateSubcategoryRequest {
    pub name: String,
    pub description: String,
    pub icon: Option<String>,
    pub display_order: Option<i32>,
}

/// A change to a subcategory: only the fields that are there change.
#[derive(Debug, Clone, PartialEq, Eq)]
pub struct UpdateSubcategoryRequest {
    pub name: Option<String>,
    pub description: Option<String>,
    pub icon: Option<String>,
    pub display_order: Option<i32>,
}

/// The mathematical value of a [`SubcategoryResponse`].
pub struct SubcategoryResponseView {
    pub id: Seq<char>,
    pub category_id: Seq<char>,
    pub name: Seq<char>,
    pub slug: Seq<char>,
    pub description: Seq<char>,
    pub icon: Option<Seq<char>>,
    pub display_order: i32,
}

impl View for SubcategoryResponse {
    type V = SubcategoryResponseView;

    open spec fn view(&self) -> SubcategoryResponseView {
        SubcategoryResponseView {
            id: self.id@,
            category_id: self.category_id@,
            name: self.name@,
            slug: self.slug@,
            description: self.description@,
            icon: opt_text(self.icon),
            display_order: self.display_order,
        }
    }
}

/// The mathematical value of a [`CategoryResponse`].
pub struct CategoryResponseView {
    pub id: Seq<char>,
    pub name: Seq<char>,
    pub slug: Seq<char>,
    pub description: Option<Seq<char>>,
    pub icon: Option<Seq<char>>,
    pub display_order: i32,
    pub subcategories: Seq<SubcategoryResponseView>,
}

impl View for CategoryResponse {
    type V = CategoryResponseView;

    open spec fn view(&self) -> CategoryResponseView {
        CategoryResponseView {
            id: self.id@,
            name: self.name@,
            slug: self.slug@,
            description: opt_text(self.description),
            icon: opt_text(self.icon),
            display_order: self.display_order,
            subcategories: Seq::new(self.subcategories@.len(), |i: int| self.subcategories@[i]@),
        }
    }
}

/// The text of an optional description: empty where there is none.
pub open spec fn description_text(description: Option<Seq<char>>) -> Seq<char> {
    match description {
        Some(text) => text,
        None => Seq::empty(),
    }
}

/// How a subcategory is shown.
pub open spec fn shown_subcategory(subcategory: subcategory::ModelView) -> SubcategoryResponseView {
    SubcategoryResponseView {
        id: uuid_text(subcategory.id),
        category_id: uuid_text(subcategory.category_id),
        name: subcategory.name,
        slug: subcategory.slug,
        description: description_text(subcategory.description),
        icon: subcategory.icon,
        display_order: subcategory.display_order,
    }
}

/// How a category is shown, given its subcategories in display order.
pub open spec fn shown_category(
    category: category::ModelView,
    subcategories: Seq<subcategory::ModelView>,
) -> CategoryResponseView {
    CategoryResponseView {
        id: uuid_text(category.id),
        name: category.name,
        slug: category.slug,
        description: Some(description_text(category.description)),
        icon: category.icon,
        display_order: category.display_order,
        subcategories: Seq::new(subcategories.len(), |i: int| shown_subcategory(subcategories[i])),
    }
}

/// The mathematical values of a list of subcategories.
pub open spec fn subcategory_views(subcategories: Seq<subcategory::Model>) -> Seq<
    subcategory::ModelView,
> {
    Seq::new(subcategories.len(), |i: int| subcategories[i]@)
}

impl SubcategoryResponse {
    /// Shows a subcategory.
    pub fn from(subcategory: subcategory::Model) -> (response: SubcategoryResponse)
        ensures
            response@ == shown_subcategory(subcategory@),
    {
        SubcategoryResponse {
            id: format_id(subcategory.id),
            category_id: format_id(subcategory.category_id),
            name: subcategory.name,
            slug: subcategory.slug,
            description: match subcategory.description {
                Some(text) => text,
                None => String::new(),
            },
            icon: subcategory.icon,
            display_order: subcategory.display_order,
        }
    }
}

impl CategoryResponse {
    /// Shows a category with its subcategories, which keep their order.
    pub fn new(category: category::Model, subcategories: Vec<subcategory::Model>) -> (response:
        CategoryResponse)
        ensures
            response@ == shown_category(category@, subcategory_views(subcategories@)),
    {
        let ghost listed = subcategory_views(subcategories@);
        let ghost all = subcategories@;
        let mut shown: Vec<SubcategoryResponse> = Vec::new();
        for next in it: subcategories.into_iter()
            invariant
                it.seq() == all,
                listed == subcategory_views(all),
                shown@.len() == it.index(),
                forall|i: int| 0 <= i < shown@.len() ==> (#[trigger] shown@[i])@ == shown_subcategory(
                    listed[i],
                ),
        {
            shown.push(SubcategoryResponse::from(next));
        }
        let response = CategoryResponse {
            id: format_id(category.id),
            name: category.name,
            slug: category.slug,
            description: Some(
                match category.description {
                    Some(text) => text,
                    None => String::new(),
                },
            ),
            icon: category.icon,
            display_order: category.display_order,
            subcategories: shown,
        };
        assert(response@.subcategories =~= shown_category(category@, listed).subcategories);
        response
    }
}

/// The answer where no category has the id or slug.
pub open spec fn category_not_found() -> AppErrorView {
    AppErrorView::NotFoundError("Category not found"@)
}

/// The answer where no subcategory has the id.
pub open spec fn subcategory_not_found() -> AppErrorView {
    AppErrorView::NotFoundError("Subcategory not found"@)
}

/// The answer where another category has the slug.
pub open spec fn category_name_taken() -> AppErrorView {
    AppErrorView::ValidationError("A category with this name already exists"@)
}

/// The answer where another subcategory of the category has the slug.
pub open spec fn subcategory_name_taken() -> AppErrorView {
    AppErrorView::ValidationError("A subcategory with this name already exists in this category"@)
}

/// Reads a category id from a path segment.
pub fn parse_category_id(text: &str) -> (outcome: Result<u128, AppError>)
    ensures
        match uuid_parsed(text@) {
            Some(id) => outcome == Ok::<u128, AppError>(id),
            None => outcome matches Err(e) && e@ == AppErrorView::ValidationError(
                "Invalid category ID format"@,
            ),
        },
{
    match parse_id(text) {
        Some(id) => Ok(id),
        None => Err(AppError::ValidationError("Invalid category ID format".to_owned())),
    }
}

/// Reads a subcategory id from a path segment.
pub fn parse_subcategory_id(text: &str) -> (outcome: Result<u128, AppError>)
    ensures
        match uuid_parsed(text@) {
            Some(id) => outcome == Ok::<u128, AppError>(id),
            None => outcome matches Err(e) && e@ == AppErrorView::ValidationError(
                "Invalid subcategory ID format"@,
            ),
        },
{
    match parse_id(text) {
        Some(id) => Ok(id),
        None => Err(AppError::ValidationError("Invalid subcategory ID format".to_owned())),
    }
}

/// The category that was looked up, or the not-found error.
pub fn require_category(found: Option<category::Model>) -> (outcome: Result<category::Model, AppError>)
    ensures
        match found {
            Some(category) => outcome == Ok::<category::Model, AppError>(category),
            None => outcome matches Err(e) && e@ == category_not_found(),
        },
{
    match found {
        Some(category) => Ok(category),
        None => Err(AppError::not_found_error("Category not found")),
    }
}

/// The subcategory that was looked up, or the not-found error.
pub fn require_subcategory(found: Option<subcategory::Model>) -> (outcome: Result<
    subcategory::Model,
    AppError,
>)
    ensures
        match found {
            Some(subcategory) => outcome == Ok::<subcategory::Model, AppError>(subcategory),
            None => outcome matches Err(e) && e@ == subcategory_not_found(),
        },
{
    match found {
        Some(subcategory) => Ok(subcategory),
        None => Err(AppError::not_found_error("Subcategory not found")),
    }
}

/// Shows the category that was looked up, with its subcategories.
pub fn get_category(found: Option<category::Model>, subcategories: Vec<subcategory::Model>) -> (outcome:
    Result<CategoryResponse, AppError>)
    ensures
        match found {
            Some(category) => outcome matches Ok(response) && response@ == shown_category(
                category@,
                subcategory_views(subcategories@),
            ),
            None => outcome matches Err(e) && e@ == category_not_found(),
        },
{
    match require_category(found) {
        Ok(category) => Ok(CategoryResponse::new(category, subcategories)),
        Err(error) => Err(error),
    }
}

/// Shows every category with its subcategories, in the order given.
pub fn get_categories(listed: Vec<(category::Model, Vec<subcategory::Model>)>) -> (responses: Vec<
    CategoryResponse,
>)
    ensures
        responses@.len() == listed@.len(),
        forall|i: int|
            0 <= i < listed@.len() ==> (#[trigger] responses@[i])@ == shown_category(
                listed@[i].0@,
                subcategory_views(listed@[i].1@),
            ),
{
    let ghost all = listed@;
    let mut responses: Vec<CategoryResponse> = Vec::new();
    for entry in it: listed.into_iter()
        invariant
            it.seq() == all,
            responses@.len() == it.index(),
            forall|i: int|
                0 <= i < responses@.len() ==> (#[trigger] responses@[i])@ == shown_category(
                    all[i].0@,
                    subcategory_views(all[i].1@),
                ),
    {
        let (category, subcategories) = entry;
        responses.push(CategoryResponse::new(category, subcategories));
    }
    responses
}

/// `value` where it is there, else zero.
pub open spec fn order_or_zero(value: Option<i32>) -> i32 {
    match value {
        Some(order) => order,
        None => 0,
    }
}

/// The category that a request creates under `id`.
pub open spec fn created_category(req: CreateCategoryRequest, id: u128) -> category::ModelView {
    category::ModelView {
        id,
        name: req.name@,
        slug: slugified(req.name@),
        description: Some(req.description@),
        icon: opt_text(req.icon),
        display_order: order_or_zero(req.display_order),
    }
}

/// The category to store for a request, unless its slug is taken.
///
/// `slug_taken` says whether a category already has the slug of the
/// requested name.
pub fn create_category(req: CreateCategoryRequest, slug_taken: bool, id: u128) -> (outcome: Result<
    category::Model,
    AppError,
>)
    ensures
        if slug_taken {
            outcome matches Err(e) && e@ == category_name_taken()
        } else {
            outcome matches Ok(category) && category@ == created_category(req, id)
        },
{
    if slug_taken {
        return Err(
            AppError::ValidationError("A category with this name already exists".to_owned()),
        );
    }
    let slug = slug_of(req.name.as_str());
    Ok(
        category::Model {
            id,
            name: req.name,
            slug,
            description: Some(req.description),
            icon: req.icon,
            display_order: match req.display_order {
                Some(order) => order,
                None => 0,
            },
        },
    )
}

/// A category after an update: a new name brings its slug with it, and
/// each other field that the request names takes the request's value.
pub open spec fn updated_category(category: category::ModelView, req: UpdateCategoryRequest) -> category::ModelView {
    category::ModelView {
        id: category.id,
        name: match req.name {
            Some(name) => name@,
            None => category.name,
        },
        slug: match req.name {
            Some(name) => slugified(name@),
            None => category.slug,
        },
        description: match req.description {
            Some(text) => Some(text@),
            None => category.description,
        },
        icon: match req.icon {
            Some(icon) => Some(icon@),
            None => category.icon,
        },
        display_order: match req.display_order {
            Some(order) => order,
            None => category.display_order,
        },
    }
}

/// The category to store after an update, unless the update renames it
/// to a name whose slug another category has.
///
/// `slug_taken` says whether another category has the slug of the new
/// name; it is not looked at where the name stays.
pub fn update_category(category: category::Model, req: UpdateCategoryRequest, slug_taken: bool) -> (outcome:
    Result<category::Model, AppError>)
    ensures
        if req.name is Some && slug_taken {
            outcome matches Err(e) && e@ == category_name_taken()
        } else {
            outcome matches Ok(stored) && stored@ == updated_category(category@, req)
        },
{
    let mut category = category;
    if let Some(name) = req.name {
        if slug_taken {
            return Err(
                AppError::ValidationError("A category with this name already exists".to_owned()),
            );
        }
        category.slug = slug_of(name.as_str());
        category.name = name;
    }
    if let Some(description) = req.description {
        category.description = Some(description);
    }
    if let Some(icon) = req.icon {
        category.icon = Some(icon);
    }
    if let Some(display_order) = req.display_order {
        category.display_order = display_order;
    }
    Ok(category)
}

/// The subcategory that a request creates under `id` in a category.
pub open spec fn created_subcategory(
    req: CreateSubcategoryRequest,
    category_id: u128,
    id: u128,
) -> subcategory::ModelView {
    subcategory::ModelView {
        id,
        category_id,
        name: req.name@,
        slug: slugified(req.name@),
        description: Some(req.description@),
        icon: opt_text(req.icon),
        display_order: order_or_zero(req.display_order),
    }
}

/// The subcategory to store for a request, unless its slug is taken in
/// the category.
pub fn create_subcategory(
    req: CreateSubcategoryRequest,
    category_id: u128,
    slug_taken: bool,
    id: u128,
) -> (outcome: Result<subcategory::Model, AppError>)
    ensures
        if slug_taken {
            outcome matches Err(e) && e@ == subcategory_name_taken()
        } else {
            outcome matches Ok(subcategory) && subcategory@ == created_subcategory(
                req,
                category_id,
                id,
            )
        },
{
    if slug_taken {
        return Err(
            AppError::ValidationError(
                "A subcategory with this name already exists in this category".to_owned(),
            ),
        );
    }
    let slug = slug_of(req.name.as_str());
    Ok(
        subcategory::Model {
            id,
            category_id,
            name: req.name,
            slug,
            description: Some(req.description),
            icon: req.icon,
            display_order: match req.display_order {
                Some(order) => order,
                None => 0,
            },
        },
    )
}

/// A subcategory after an update.
pub open spec fn updated_subcategory(
    subcategory: subcategory::ModelView,
    req: UpdateSubcategoryRequest,
) -> subcategory::ModelView {
    subcategory::ModelView {
        id: subcategory.id,
        category_id: subcategory.category_id,
        name: match req.name {
            Some(name) => name@,
            None => subcategory.name,
        },
        slug: match req.name {
            Some(name) => slugified(name@),
            None => subcategory.slug,
        },
        description: match req.description {
            Some(text) => Some(text@),
            None => subcategory.description,
        },
        icon: match req.icon {
            Some(icon) => Some(icon@),
            None => subcategory.icon,
        },
        display_order: match req.display_order {
            Some(order) => order,
            None => subcategory.display_order,
        },
    }
}

/// The subcategory to store after an update, unless the update renames
/// it to a name whose slug another subcategory of the category has.
pub fn update_subcategory(
    subcategory: subcategory::Model,
    req: UpdateSubcategoryRequest,
    slug_taken: bool,
) -> (outcome: Result<subcategory::Model, AppError>)
    ensures
        if req.name is Some && slug_taken {
            outcome matches Err(e) && e@ == subcategory_name_taken()
        } else {
            outcome matches Ok(stored) && stored@ == updated_subcategory(subcategory@, req)
        },
{
    let mut subcategory = subcategory;
    if let Some(name) = req.name {
        if slug_taken {
            return Err(
                AppError::ValidationError(
                    "A subcategory with this name already exists in this category".to_owned(),
                ),
            );
        }
        subcategory.slug = slug_of(name.as_str());
        subcategory.name = name;
    }
    if let Some(description) = req.description {
        subcategory.description = Some(description);
    }
    if let Some(icon) = req.icon {
        subcategory.icon = Some(icon);
    }
    if let Some(display_order) = req.display_order {
        subcategory.display_order = display_order;
    }
    Ok(subcategory)
}

} // verus!
