//! Camera configuration widgets.
//!
//! A camera's configuration is a tree: group widgets hold children, the
//! leaves are typed values (text, toggle, choice, date, button). Every
//! widget carries the same base information — id, name, label, description,
//! read-only flag — and a group can be searched for a descendant by index,
//! id, label or name. The searches walk the subtree depth first, children in
//! order, and return the first match.

use vstd::prelude::*;

use crate::error::{Error, GP_ERROR_BAD_PARAMETERS};

verus! {

/// Base widget type providing general information about the widget.
#[derive(Debug, Clone)]
pub struct WidgetBase {
    /// The widget id.
    pub id: i32,
    /// The widget name.
    pub name: String,
    /// The widget label.
    pub label: String,
    /// Information about the widget.
    pub info: String,
    /// If true, the widget cannot be written.
    pub readonly: bool,
}

impl WidgetBase {
    /// If true, the widget cannot be written.
    pub fn readonly(&self) -> (r: bool)
        ensures
            r == self.readonly,
    {
        self.readonly
    }

    /// Get the widget label.
    pub fn label(&self) -> (r: &String)
        ensures
            r@ == self.label@,
    {
        &self.label
    }

    /// Get the widget name.
    pub fn name(&self) -> (r: &String)
        ensures
            r@ == self.name@,
    {
        &self.name
    }

    /// Get the widget id.
    pub fn id(&self) -> (r: i32)
        ensures
            r == self.id,
    {
        self.id
    }

    /// Get information about the widget.
    pub fn info(&self) -> (r: &String)
        ensures
            r@ == self.info@,
    {
        &self.info
    }
}

/// Typed widget representation.
#[derive(Debug)]
pub enum Widget {
    /// A window or section holding child widgets.
    Group(GroupWidget),
    /// A free-form text value.
    Text(TextWidget),
    /// An on/off value.
    Toggle(ToggleWidget),
    /// A value picked from a fixed list of choices.
    Radio(RadioWidget),
    /// A point in time.
    Date(DateWidget),
    /// A pressable button.
    Button(ButtonWidget),
}

/// A window or section widget holding child widgets.
#[derive(Debug)]
pub struct GroupWidget {
    /// The widget's base information.
    pub base: WidgetBase,
    /// The children, in the order the driver reports them.
    pub children: Vec<Widget>,
}

/// A free-form text widget.
#[derive(Debug, Clone)]
pub struct TextWidget {
    /// The widget's base information.
    pub base: WidgetBase,
    /// The current text.
    pub value: String,
}

/// An on/off widget. The driver reports the state as a number: zero is off,
/// one is on, anything else is undefined.
#[derive(Debug, Clone)]
pub struct ToggleWidget {
    /// The widget's base information.
    pub base: WidgetBase,
    /// The raw state number.
    pub raw_state: i32,
}

/// A widget holding one choice out of a fixed list.
#[derive(Debug, Clone)]
pub struct RadioWidget {
    /// The widget's base information.
    pub base: WidgetBase,
    /// The available choices.
    pub choices: Vec<String>,
    /// The current choice.
    pub choice: String,
}

/// A widget holding a point in time.
#[derive(Debug, Clone)]
pub struct DateWidget {
    /// The widget's base information.
    pub base: WidgetBase,
    /// The value as a UNIX timestamp.
    pub timestamp: i32,
}

/// A pressable button widget.
#[derive(Debug, Clone)]
pub struct ButtonWidget {
    /// The widget's base information.
    pub base: WidgetBase,
}

/// The base information of any widget.
pub open spec fn base_of(w: Widget) -> WidgetBase {
    match w {
        Widget::Group(g) => g.base,
        Widget::Text(t) => t.base,
        Widget::Toggle(t) => t.base,
        Widget::Radio(r) => r.base,
        Widget::Date(d) => d.base,
        Widget::Button(b) => b.base,
    }
}

impl Widget {
    /// The base information of this widget.
    pub fn base(&self) -> (r: &WidgetBase)
        ensures
            *r == base_of(*self),
    {
        match self {
            Widget::Group(g) => &g.base,
            Widget::Text(t) => &t.base,
            Widget::Toggle(t) => &t.base,
            Widget::Radio(r) => &r.base,
            Widget::Date(d) => &d.base,
            Widget::Button(b) => &b.base,
        }
    }
}

/// The first widget with this name in the forest `ws` from position `i` on,
/// depth first, children in order.
pub open spec fn find_by_name_from(ws: Seq<Widget>, i: int, name: Seq<char>) -> Option<Widget>
    decreases ws, ws.len() - i,
{
    if i < 0 || i >= ws.len() {
        None
    } else if base_of(ws[i]).name@ == name {
        Some(ws[i])
    } else {
        let sub = match ws[i] {
            Widget::Group(g) => find_by_name_from(g.children@, 0, name),
            _ => None,
        };
        if sub is Some {
            sub
        } else {
            find_by_name_from(ws, i + 1, name)
        }
    }
}

/// The first widget with this label in the forest `ws` from position `i` on,
/// depth first, children in order.
pub open spec fn find_by_label_from(ws: Seq<Widget>, i: int, label: Seq<char>) -> Option<Widget>
    decreases ws, ws.len() - i,
{
    if i < 0 || i >= ws.len() {
        None
    } else if base_of(ws[i]).label@ == label {
        Some(ws[i])
    } else {
        let sub = match ws[i] {
            Widget::Group(g) => find_by_label_from(g.children@, 0, label),
            _ => None,
        };
        if sub is Some {
            sub
        } else {
            find_by_label_from(ws, i + 1, label)
        }
    }
}

/// The first widget with this id in the forest `ws` from position `i` on,
/// depth first, children in order.
pub open spec fn find_by_id_from(ws: Seq<Widget>, i: int, id: i32) -> Option<Widget>
    decreases ws, ws.len() - i,
{
    if i < 0 || i >= ws.len() {
        None
    } else if base_of(ws[i]).id == id {
        Some(ws[i])
    } else {
        let sub = match ws[i] {
            Widget::Group(g) => find_by_id_from(g.children@, 0, id),
            _ => None,
        };
        if sub is Some {
            sub
        } else {
            find_by_id_from(ws, i + 1, id)
        }
    }
}

/// Depth-first search of a forest for the first widget whose name matches.
fn search_by_name<'a>(children: &'a Vec<Widget>, start: usize, name: &String) -> (r: Option<
    &'a Widget,
>)
    requires
        start <= children@.len(),
    ensures
        r is Some <==> find_by_name_from(children@, start as int, name@) is Some,
        r is Some ==> *r->0 == find_by_name_from(children@, start as int, name@)->0,
    decreases children@, children@.len() - start,
{
    if start >= children.len() {
        return None;
    }
    let w = &children[start];
    if w.base().name.eq(name) {
        return Some(w);
    }
    let sub = match w {
        Widget::Group(g) => {
            proof {
                assert(decreases_to!(children@ => children@[start as int]));
                assert(decreases_to!(children@[start as int] => g.children@));
            }
            search_by_name(&g.children, 0, name)
        },
        _ => None,
    };
    match sub {
        Some(found) => Some(found),
        None => search_by_name(children, start + 1, name),
    }
}

/// Depth-first search of a forest for the first widget whose label matches.
fn search_by_label<'a>(children: &'a Vec<Widget>, start: usize, label: &String) -> (r: Option<
    &'a Widget,
>)
    requires
        start <= children@.len(),
    ensures
        r is Some <==> find_by_label_from(children@, start as int, label@) is Some,
        r is Some ==> *r->0 == find_by_label_from(children@, start as int, label@)->0,
    decreases children@, children@.len() - start,
{
    if start >= children.len() {
        return None;
    }
    let w = &children[start];
    if w.base().label.eq(label) {
        return Some(w);
    }
    let sub = match w {
        Widget::Group(g) => {
            proof {
                assert(decreases_to!(children@ => children@[start as int]));
                assert(decreases_to!(children@[start as int] => g.children@));
            }
            search_by_label(&g.children, 0, label)
        },
        _ => None,
    };
    match sub {
        Some(found) => Some(found),
        None => search_by_label(children, start + 1, label),
    }
}

/// Depth-first search of a forest for the first widget whose id matches.
fn search_by_id<'a>(children: &'a Vec<Widget>, start: usize, id: i32) -> (r: Option<&'a Widget>)
    requires
        start <= children@.len(),
    ensures
        r is Some <==> find_by_id_from(children@, start as int, id) is Some,
        r is Some ==> *r->0 == find_by_id_from(children@, start as int, id)->0,
    decreases children@, children@.len() - start,
{
    if start >= children.len() {
        return None;
    }
    let w = &children[start];
    if w.base().id == id {
        return Some(w);
    }
    let sub = match w {
        Widget::Group(g) => {
            proof {
                assert(decreases_to!(children@ => children@[start as int]));
                assert(decreases_to!(children@[start as int] => g.children@));
            }
            search_by_id(&g.children, 0, id)
        },
        _ => None,
    };
    match sub {
        Some(found) => Some(found),
        None => search_by_id(children, start + 1, id),
    }
}

/// Iterator over the children of a group widget.
pub struct WidgetIterator<'a> {
    /// The group whose children are walked.
    pub parent_widget: &'a GroupWidget,
    /// The position of the next child to hand out.
    pub index: usize,
}

impl<'a> WidgetIterator<'a> {
    /// The next child, in order, until all have been handed out.
    pub fn next(&mut self) -> (r: Option<&'a Widget>)
        requires
            old(self).index <= old(self).parent_widget.children@.len(),
        ensures
            final(self).parent_widget == old(self).parent_widget,
            old(self).index < old(self).parent_widget.children@.len() ==> {
                &&& final(self).index == old(self).index + 1
                &&& r is Some
                &&& *r->0 == old(self).parent_widget.children@[old(self).index as int]
            },
            old(self).index >= old(self).parent_widget.children@.len() ==> {
                &&& final(self).index == old(self).index
                &&& r is None
            },
    {
        if self.index < self.parent_widget.children.len() {
            let r = &self.parent_widget.children[self.index];
            self.index = self.index + 1;
            Some(r)
        } else {
            None
        }
    }

    /// How many children are left to hand out.
    pub fn len(&self) -> (r: usize)
        requires
            self.index <= self.parent_widget.children@.len(),
        ensures
            r == self.parent_widget.children@.len() - self.index,
    {
        self.parent_widget.children.len() - self.index
    }
}

impl GroupWidget {
    /// Walks the children of the widget in order.
    pub fn children_iter(&self) -> (r: WidgetIterator<'_>)
        ensures
            r.parent_widget == self,
            r.index == 0,
    {
        WidgetIterator { parent_widget: self, index: 0 }
    }

    /// Counts the children of the widget.
    pub fn children_count(&self) -> (r: usize)
        ensures
            r == self.children@.len(),
    {
        self.children.len()
    }

    /// Gets a direct child by its index.
    pub fn get_child(&self, index: usize) -> (r: Result<&Widget, Error>)
        ensures
            index < self.children@.len() <==> r is Ok,
            r is Ok ==> *r->Ok_0 == self.children@[index as int],
            r is Err ==> r->Err_0.code == GP_ERROR_BAD_PARAMETERS,
    {
        if index < self.children.len() {
            Ok(&self.children[index])
        } else {
            Err(Error::new(GP_ERROR_BAD_PARAMETERS, None))
        }
    }

    /// Gets the first descendant with this id, depth first, children in
    /// order.
    pub fn get_child_by_id(&self, id: i32) -> (r: Result<&Widget, Error>)
        ensures
            find_by_id_from(self.children@, 0, id) is Some <==> r is Ok,
            r is Ok ==> *r->Ok_0 == find_by_id_from(self.children@, 0, id)->0,
            r is Err ==> r->Err_0.code == GP_ERROR_BAD_PARAMETERS,
    {
        match search_by_id(&self.children, 0, id) {
            Some(found) => Ok(found),
            None => Err(Error::new(GP_ERROR_BAD_PARAMETERS, None)),
        }
    }

    /// Gets the first descendant with this label, depth first, children in
    /// order.
    pub fn get_child_by_label(&self, label: &str) -> (r: Result<&Widget, Error>)
        ensures
            find_by_label_from(self.children@, 0, label@) is Some <==> r is Ok,
            r is Ok ==> *r->Ok_0 == find_by_label_from(self.children@, 0, label@)->0,
            r is Err ==> r->Err_0.code == GP_ERROR_BAD_PARAMETERS,
    {
        let needle: String = label.to_owned();
        match search_by_label(&self.children, 0, &needle) {
            Some(found) => Ok(found),
            None => Err(Error::new(GP_ERROR_BAD_PARAMETERS, None)),
        }
    }

    /// Gets the first descendant with this name, depth first, children in
    /// order.
    pub fn get_child_by_name(&self, name: &str) -> (r: Result<&Widget, Error>)
        ensures
            find_by_name_from(self.children@, 0, name@) is Some <==> r is Ok,
            r is Ok ==> *r->Ok_0 == find_by_name_from(self.children@, 0, name@)->0,
            r is Err ==> r->Err_0.code == GP_ERROR_BAD_PARAMETERS,
    {
        let needle: String = name.to_owned();
        match search_by_name(&self.children, 0, &needle) {
            Some(found) => Ok(found),
            None => Err(Error::new(GP_ERROR_BAD_PARAMETERS, None)),
        }
    }
}

impl TextWidget {
    /// Get the value of the widget.
    pub fn value(&self) -> (r: &String)
        ensures
            r@ == self.value@,
    {
        &self.value
    }

    /// Set the value of the widget.
    pub fn set_value(&mut self, value: &str) -> (r: Result<(), Error>)
        ensures
            r is Ok,
            final(self).value@ == value@,
            final(self).base == old(self).base,
    {
        self.value = value.to_owned();
        Ok(())
    }
}

impl ToggleWidget {
    /// Check if the widget is toggled; `None` for an undefined state.
    pub fn toggled(&self) -> (r: Option<bool>)
        ensures
            self.raw_state == 0 ==> r == Some(false),
            self.raw_state == 1 ==> r == Some(true),
            self.raw_state != 0 && self.raw_state != 1 ==> r is None,
    {
        if self.raw_state == 0 {
            Some(false)
        } else if self.raw_state == 1 {
            Some(true)
        } else {
            None
        }
    }

    /// Set the toggled state of the widget.
    pub fn set_toggled(&mut self, value: bool)
        ensures
            final(self).raw_state == (if value {
                1int
            } else {
                0int
            }),
            final(self).base == old(self).base,
    {
        self.raw_state = if value {
            1
        } else {
            0
        };
    }
}

/// Iterator over the choices of a choice widget.
pub struct ChoicesIter<'a> {
    /// The widget whose choices are walked.
    pub widget: &'a RadioWidget,
    /// The position of the next choice to hand out.
    pub index: usize,
}

impl<'a> ChoicesIter<'a> {
    /// The next choice, in order, until all have been handed out.
    pub fn next(&mut self) -> (r: Option<&'a String>)
        requires
            old(self).index <= old(self).widget.choices@.len(),
        ensures
            final(self).widget == old(self).widget,
            old(self).index < old(self).widget.choices@.len() ==> {
                &&& final(self).index == old(self).index + 1
                &&& r is Some
                &&& r->0@ == old(self).widget.choices@[old(self).index as int]@
            },
            old(self).index >= old(self).widget.choices@.len() ==> {
                &&& final(self).index == old(self).index
                &&& r is None
            },
    {
        if self.index < self.widget.choices.len() {
            let r = &self.widget.choices[self.index];
            self.index = self.index + 1;
            Some(r)
        } else {
            None
        }
    }

    /// How many choices are left to hand out.
    pub fn len(&self) -> (r: usize)
        requires
            self.index <= self.widget.choices@.len(),
        ensures
            r == self.widget.choices@.len() - self.index,
    {
        self.widget.choices.len() - self.index
    }
}

impl RadioWidget {
    /// Walks the available choices in order.
    pub fn choices_iter(&self) -> (r: ChoicesIter<'_>)
        ensures
            r.widget == self,
            r.index == 0,
    {
        ChoicesIter { widget: self, index: 0 }
    }

    /// Get the current choice.
    pub fn choice(&self) -> (r: &String)
        ensures
            r@ == self.choice@,
    {
        &self.choice
    }

    /// Set the current choice.
    pub fn set_choice(&mut self, value: &str) -> (r: Result<(), Error>)
        ensures
            r is Ok,
            final(self).choice@ == value@,
            final(self).base == old(self).base,
            final(self).choices == old(self).choices,
    {
        self.choice = value.to_owned();
        Ok(())
    }
}

impl DateWidget {
    /// Get the widget's value as a UNIX timestamp.
    pub fn timestamp(&self) -> (r: i32)
        ensures
            r == self.timestamp,
    {
        self.timestamp
    }

    /// Set the widget's value as a UNIX timestamp.
    pub fn set_timestamp(&mut self, value: i32)
        ensures
            final(self).timestamp == value,
            final(self).base == old(self).base,
    {
        self.timestamp = value;
    }
}

} // verus!
