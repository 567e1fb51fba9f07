use vstd::prelude::*;
use crate::items::{Item, ItemView};

verus! {

/// A named group of items.
#[derive(Debug)]
pub struct Category {
    pub id: isize,
    pub name: String,
    pub items: Vec<Item>,
}

/// What a category is, as plain values.
pub struct CategoryView {
    pub id: isize,
    pub name: Seq<char>,
    pub items: Seq<ItemView>,
}

/// The views of a sequence of items.
pub open spec fn item_views(items: Seq<Item>) -> Seq<ItemView> {
    items.map_values(|i: Item| i@)
}

/// The views of a sequence of categories.
pub open spec fn category_views(categories: Seq<Category>) -> Seq<CategoryView> {
    categories.map_values(|c: Category| c@)
}

impl View for Category {
    type V = CategoryView;

    open spec fn view(&self) -> CategoryView {
        CategoryView { id: self.id, name: self.name@, items: item_views(self.items@) }
    }
}

/// A copy of a list of items.
pub fn clone_items(items: &Vec<Item>) -> (r: Vec<Item>)
    ensures
        item_views(r@) == item_views(items@),
{
    let r = items.clone();
    assert(item_views(r@) =~= item_views(items@));
    r
}

impl Clone for Category {
    fn clone(&self) -> (r: Category)
        ensures
            r@ == self@,
    {
        Category { id: self.id, name: self.name.clone(), items: clone_items(&self.items) }
    }
}

/// The category's identifier as a C `int` (it wraps to 32 bits).
pub fn category_get_id(category: &Category) -> (id: i32)
    ensures
        id == category.id as i32,
{
    category.id as i32
}

/// The name of a category.
pub fn category_get_name(category: &Category) -> (name: String)
    ensures
        name@ == category.name@,
{
    category.name.clone()
}

/// A copy of the category's items.
pub fn category_get_items(category: &Category) -> (items: Vec<Item>)
    ensures
        item_views(items@) == category@.items,
{
    clone_items(&category.items)
}

/// How many items the category holds, as a C `int` (the count wraps to 32 bits).
pub fn category_items_count(category: &Category) -> (count: i32)
    ensures
        count == category.items.len() as i32,
{
    category.items.len() as i32
}

/// A copy of the item at `index` of a list.
pub fn category_item_at(item_list: &Vec<Item>, index: usize) -> (item: Item)
    requires
        index < item_list.len(),
    ensures
        item@ == item_list[index as int]@,
{
    item_list[index].clone()
}

/// How many categories a list holds, as a C `int` (the count wraps to 32 bits).
pub fn category_list_count(category_list: &Vec<Category>) -> (count: i32)
    ensures
        count == category_list.len() as i32,
{
    category_list.len() as i32
}

/// A copy of the category at `index` of a list.
pub fn category_list_item_at(category_list: &Vec<Category>, index: usize) -> (category: Category)
    requires
        index < category_list.len(),
    ensures
        category@ == category_list[index as int]@,
{
    category_list[index].clone()
}

/// Appends a copy of a category to a list.
pub fn add_category(category_list: &mut Vec<Category>, category: &Category)
    ensures
        category_views(final(category_list)@) == category_views(old(category_list)@).push(category@),
{
    let copy = category.clone();
    category_list.push(copy);
    assert(category_views(category_list@) =~= category_views(old(category_list)@).push(category@));
}

/// Appends a copy of an item to a category; its identifier and name stay.
pub fn category_add_item(category: &mut Category, item: &Item)
    ensures
        final(category)@ == (CategoryView {
            items: old(category)@.items.push(item@),
            ..old(category)@
        }),
{
    let copy = item.clone();
    category.items.push(copy);
    assert(item_views(category.items@) =~= item_views(old(category).items@).push(item@));
}

} // verus!
