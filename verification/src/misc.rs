//! Input hints shown to the user, and the editor's error type.

use vstd::prelude::*;
use crate::input::{Key, MouseMotion};

verus! {

/// Keys pressed together.
#[derive(Clone, Debug, PartialEq, Eq)]
pub struct KeysGroup(pub Vec<Key>);

/// One available action: the keys and the gesture that trigger it.
#[derive(Clone, Debug, PartialEq, Eq)]
pub struct HintInfo {
    pub key_groups: Vec<KeysGroup>,
    pub mouse: Option<MouseMotion>,
    pub label: String,
    /// Whether the hint continues the one before it.
    pub plus: bool,
}

/// Hints shown side by side.
#[derive(Clone, Debug, PartialEq, Eq)]
pub struct HintGroup(pub Vec<HintInfo>);

/// All the hints of one tool state.
#[derive(Clone, Debug, PartialEq, Eq)]
pub struct HintData(pub Vec<HintGroup>);

/// A hint with its keys and its label as sequences.
pub struct HintInfoView {
    pub key_groups: Seq<Seq<Key>>,
    pub mouse: Option<MouseMotion>,
    pub label: Seq<char>,
    pub plus: bool,
}

impl View for KeysGroup {
    type V = Seq<Key>;

    open spec fn view(&self) -> Seq<Key> {
        self.0@
    }
}

impl View for HintInfo {
    type V = HintInfoView;

    open spec fn view(&self) -> HintInfoView {
        HintInfoView {
            key_groups: key_group_views(self.key_groups@),
            mouse: self.mouse,
            label: self.label@,
            plus: self.plus,
        }
    }
}

impl View for HintGroup {
    type V = Seq<HintInfoView>;

    open spec fn view(&self) -> Seq<HintInfoView> {
        self.0@.map_values(|h: HintInfo| h@)
    }
}

impl View for HintData {
    type V = Seq<Seq<HintInfoView>>;

    open spec fn view(&self) -> Seq<Seq<HintInfoView>> {
        self.0@.map_values(|g: HintGroup| g@)
    }
}

/// The key groups of a list, each as the sequence of its keys.
pub open spec fn key_group_views(groups: Seq<KeysGroup>) -> Seq<Seq<Key>> {
    groups.map_values(|g: KeysGroup| g@)
}

/// The hint with the given content.
pub open spec fn hint_view(
    key_groups: Seq<Seq<Key>>,
    mouse: Option<MouseMotion>,
    label: &str,
    plus: bool,
) -> HintInfoView {
    HintInfoView { key_groups, mouse, label: label@, plus }
}

/// No keys at all.
pub fn no_keys() -> (groups: Vec<KeysGroup>)
    ensures
        key_group_views(groups@) == Seq::<Seq<Key>>::empty(),
{
    let groups: Vec<KeysGroup> = Vec::new();
    assert(key_group_views(groups@) =~= Seq::<Seq<Key>>::empty());
    groups
}

/// A group that holds `key` alone.
pub fn key_group(key: Key) -> (group: KeysGroup)
    ensures
        group@ == seq![key],
{
    let mut keys: Vec<Key> = Vec::new();
    keys.push(key);
    assert(keys@ =~= seq![key]);
    KeysGroup(keys)
}

/// One key.
pub fn one_key(key: Key) -> (groups: Vec<KeysGroup>)
    ensures
        key_group_views(groups@) == seq![seq![key]],
{
    let mut groups: Vec<KeysGroup> = Vec::new();
    groups.push(key_group(key));
    assert(key_group_views(groups@) =~= seq![seq![key]]);
    groups
}

/// Four keys, any one of which will do.
pub fn four_keys(first: Key, second: Key, third: Key, fourth: Key) -> (groups: Vec<KeysGroup>)
    ensures
        key_group_views(groups@) == seq![seq![first], seq![second], seq![third], seq![fourth]],
{
    let mut groups: Vec<KeysGroup> = Vec::new();
    groups.push(key_group(first));
    groups.push(key_group(second));
    groups.push(key_group(third));
    groups.push(key_group(fourth));
    assert(key_group_views(groups@) =~= seq![seq![first], seq![second], seq![third], seq![fourth]]);
    groups
}

/// Builds one hint.
pub fn hint(key_groups: Vec<KeysGroup>, mouse: Option<MouseMotion>, label: &str, plus: bool) -> (info:
    HintInfo)
    ensures
        info@ == hint_view(key_group_views(key_groups@), mouse, label, plus),
{
    HintInfo { key_groups, mouse, label: label.to_owned(), plus }
}

/// A group of one hint.
pub fn group_of_one(first: HintInfo) -> (group: HintGroup)
    ensures
        group@ == seq![first@],
{
    let mut hints: Vec<HintInfo> = Vec::new();
    hints.push(first);
    assert(hints@.map_values(|h: HintInfo| h@) =~= seq![first@]);
    HintGroup(hints)
}

/// A group of two hints.
pub fn group_of_two(first: HintInfo, second: HintInfo) -> (group: HintGroup)
    ensures
        group@ == seq![first@, second@],
{
    let mut hints: Vec<HintInfo> = Vec::new();
    hints.push(first);
    hints.push(second);
    assert(hints@.map_values(|h: HintInfo| h@) =~= seq![first@, second@]);
    HintGroup(hints)
}

/// A group of three hints.
pub fn group_of_three(first: HintInfo, second: HintInfo, third: HintInfo) -> (group: HintGroup)
    ensures
        group@ == seq![first@, second@, third@],
{
    let mut hints: Vec<HintInfo> = Vec::new();
    hints.push(first);
    hints.push(second);
    hints.push(third);
    assert(hints@.map_values(|h: HintInfo| h@) =~= seq![first@, second@, third@]);
    HintGroup(hints)
}

/// A group of four hints.
pub fn group_of_four(first: HintInfo, second: HintInfo, third: HintInfo, fourth: HintInfo) -> (group:
    HintGroup)
    ensures
        group@ == seq![first@, second@, third@, fourth@],
{
    let mut hints: Vec<HintInfo> = Vec::new();
    hints.push(first);
    hints.push(second);
    hints.push(third);
    hints.push(fourth);
    assert(hints@.map_values(|h: HintInfo| h@) =~= seq![first@, second@, third@, fourth@]);
    HintGroup(hints)
}

/// Why the editor could not finish a request.
#[derive(Clone, Copy, Debug, PartialEq, Eq, Structural)]
pub enum EditorError {
    /// The dispatcher processed as many messages as it is allowed to, and
    /// messages were still queued.
    DispatchLimit,
    /// A tool was to read geometry that lies off the canvas.
    MalformedGeometry,
}

} // verus!
