//! Actions that a device offers, and what is known of a device once the
//! connection stands.

use crate::types::{views, DeviceKind};
use vstd::prelude::*;
use vstd::string::StringExecFns;

verus! {

/// Copies a list of strings.
pub fn clone_texts(texts: &Vec<String>) -> (res: Vec<String>)
    ensures
        views(res@) == views(texts@),
{
    let mut res: Vec<String> = Vec::new();
    let mut i: usize = 0;
    while i < texts.len()
        invariant
            i <= texts.len(),
            res.len() == i,
            forall|j: int| 0 <= j < i ==> res[j]@ == texts[j]@,
        decreases texts.len() - i,
    {
        res.push(texts[i].clone());
        i += 1;
    }
    assert(views(res@) =~= views(texts@));
    res
}

/// The parameter that an action takes.
#[derive(Debug)]
pub enum ActionParamsInfo {
    /// Exactly one of the options is chosen.
    Enumeration(Vec<String>),
    /// Any number of the flags are chosen.
    Flags(Vec<String>),
}

/// Model of an [`ActionParamsInfo`].
pub enum ActionParamsView {
    Enumeration(Seq<Seq<char>>),
    Flags(Seq<Seq<char>>),
}

impl View for ActionParamsInfo {
    type V = ActionParamsView;

    open spec fn view(&self) -> ActionParamsView {
        match *self {
            ActionParamsInfo::Enumeration(options) => ActionParamsView::Enumeration(
                views(options@),
            ),
            ActionParamsInfo::Flags(flags) => ActionParamsView::Flags(views(flags@)),
        }
    }
}

impl Clone for ActionParamsInfo {
    fn clone(&self) -> (res: Self)
        ensures
            res@ == self@,
    {
        match self {
            ActionParamsInfo::Enumeration(options) => ActionParamsInfo::Enumeration(
                clone_texts(options),
            ),
            ActionParamsInfo::Flags(flags) => ActionParamsInfo::Flags(clone_texts(flags)),
        }
    }
}

/// The texts of a list of string slices.
pub open spec fn slice_texts(items: Seq<&str>) -> Seq<Seq<char>> {
    items.map_values(|item: &str| item@)
}

/// Owned copies of a list of string slices.
pub fn owned_texts(items: &[&str]) -> (res: Vec<String>)
    ensures
        views(res@) == slice_texts(items@),
{
    let mut res: Vec<String> = Vec::new();
    let mut i: usize = 0;
    while i < items.len()
        invariant
            i <= items.len(),
            res.len() == i,
            forall|j: int| 0 <= j < i ==> res[j]@ == items[j]@,
        decreases items.len() - i,
    {
        res.push(String::from_str(items[i]));
        i += 1;
    }
    assert(views(res@) =~= slice_texts(items@));
    res
}

impl ActionParamsInfo {
    /// A parameter of which exactly one of `options` is chosen.
    pub fn enumeration(options: &[&str]) -> (res: Self)
        ensures
            res@ == ActionParamsView::Enumeration(slice_texts(options@)),
    {
        ActionParamsInfo::Enumeration(owned_texts(options))
    }

    /// A parameter of which any number of `flags` are chosen.
    pub fn flags(flags: &[&str]) -> (res: Self)
        ensures
            res@ == ActionParamsView::Flags(slice_texts(flags@)),
    {
        ActionParamsInfo::Flags(owned_texts(flags))
    }
}

/// The view of an optional parameter description.
pub open spec fn params_view(params: Option<ActionParamsInfo>) -> Option<ActionParamsView> {
    match params {
        Some(p) => Some(p@),
        None => None,
    }
}

/// An action of a device: its stable id, the name it is shown under, and
/// the parameter it takes, if any.
#[derive(Debug)]
pub struct ActionInfo {
    pub id: String,
    pub name: String,
    pub params: Option<ActionParamsInfo>,
}

/// Model of an [`ActionInfo`].
pub struct ActionInfoView {
    pub id: Seq<char>,
    pub name: Seq<char>,
    pub params: Option<ActionParamsView>,
}

impl View for ActionInfo {
    type V = ActionInfoView;

    open spec fn view(&self) -> ActionInfoView {
        ActionInfoView { id: self.id@, name: self.name@, params: params_view(self.params) }
    }
}

impl ActionInfo {
    /// The description of an action, from what a device says of it.
    pub fn from_action(id: &str, name: &str, params: Option<ActionParamsInfo>) -> (res: Self)
        ensures
            res@ == (ActionInfoView { id: id@, name: name@, params: params_view(params) }),
    {
        ActionInfo { id: String::from_str(id), name: String::from_str(name), params }
    }
}

impl Clone for ActionInfo {
    fn clone(&self) -> (res: Self)
        ensures
            res@ == self@,
    {
        let params = match &self.params {
            Some(p) => Some(p.clone()),
            None => None,
        };
        ActionInfo { id: self.id.clone(), name: self.name.clone(), params }
    }
}

/// Copies a list of actions.
pub fn clone_actions(actions: &Vec<ActionInfo>) -> (res: Vec<ActionInfo>)
    ensures
        views(res@) == views(actions@),
{
    let mut res: Vec<ActionInfo> = Vec::new();
    let mut i: usize = 0;
    while i < actions.len()
        invariant
            i <= actions.len(),
            res.len() == i,
            forall|j: int| 0 <= j < i ==> res[j]@ == actions[j]@,
        decreases actions.len() - i,
    {
        res.push(actions[i].clone());
        i += 1;
    }
    assert(views(res@) =~= views(actions@));
    res
}

/// What a device says of itself when the connection is made. It is taken
/// once and never changed afterwards.
#[derive(Debug)]
pub struct DeviceInfo {
    pub software_id: u16,
    pub kind: DeviceKind,
    pub actions: Vec<ActionInfo>,
}

/// Model of a [`DeviceInfo`].
pub struct DeviceInfoView {
    pub software_id: u16,
    pub kind: DeviceKind,
    pub actions: Seq<ActionInfoView>,
}

impl View for DeviceInfo {
    type V = DeviceInfoView;

    open spec fn view(&self) -> DeviceInfoView {
        DeviceInfoView {
            software_id: self.software_id,
            kind: self.kind,
            actions: views(self.actions@),
        }
    }
}

impl Clone for DeviceInfo {
    fn clone(&self) -> (res: Self)
        ensures
            res@ == self@,
    {
        DeviceInfo {
            software_id: self.software_id,
            kind: self.kind,
            actions: clone_actions(&self.actions),
        }
    }
}

} // verus!
