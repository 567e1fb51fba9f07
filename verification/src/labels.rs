use vstd::prelude::*;
use crate::ids::Entity;

verus! {

/// A label that items can carry: a name and a display colour, and the store's
/// identifier once the label has been stored.
#[derive(Debug)]
pub struct Label {
    pub id: Option<Entity>,
    pub name: String,
    pub color: String,
}

/// What a label is, as plain values.
pub struct LabelView {
    pub id: Option<Entity>,
    pub name: Seq<char>,
    pub color: Seq<char>,
}

impl View for Label {
    type V = LabelView;

    open spec fn view(&self) -> LabelView {
        LabelView { id: self.id, name: self.name@, color: self.color@ }
    }
}

/// Whether two optional entities are the same.
pub fn same_entity(a: &Option<Entity>, b: &Option<Entity>) -> (r: bool)
    ensures
        r == (*a == *b),
{
    match (a, b) {
        (Some(x), Some(y)) => x.id == y.id,
        (None, None) => true,
        _ => false,
    }
}

impl Clone for Label {
    fn clone(&self) -> (r: Label)
        ensures
            r@ == self@,
    {
        Label { id: self.id, name: self.name.clone(), color: self.color.clone() }
    }
}

impl PartialEq for Label {
    fn eq(&self, other: &Label) -> (r: bool) {
        same_entity(&self.id, &other.id) && self.name == other.name && self.color == other.color
    }
}

impl vstd::std_specs::cmp::PartialEqSpecImpl for Label {
    open spec fn obeys_eq_spec() -> bool {
        true
    }

    open spec fn eq_spec(&self, other: &Label) -> bool {
        self@ == other@
    }
}

/// The name of a label.
pub fn label_get_name(label: &Label) -> (name: String)
    ensures
        name@ == label.name@,
{
    label.name.clone()
}

/// The colour of a label.
pub fn label_get_color(label: &Label) -> (color: String)
    ensures
        color@ == label.color@,
{
    label.color.clone()
}

/// Gives a label a new colour; its identifier and name stay.
pub fn label_set_color(label: &mut Label, color: String)
    ensures
        final(label)@ == (LabelView { color: color@, ..old(label)@ }),
{
    label.color = color;
}

} // verus!
