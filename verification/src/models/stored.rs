//! What is kept in the database.

use vstd::prelude::*;

use crate::models::actions::{Action, Bound, Platform, RotationMode};
use crate::models::keys::KeyBindingConfiguration;

verus! {

/// Something that is kept as a row of a table.
pub trait Identifiable: Sized {
    /// What is kept, apart from the row that it is kept in.
    type Content;

    spec fn content(&self) -> Self::Content;

    /// The row that it is kept in, if it is kept already.
    spec fn row(&self) -> Option<i64>;

    fn id(&self) -> (res: Option<i64>)
        ensures
            res == self.row(),
    ;

    fn set_id(&mut self, id: i64)
        ensures
            final(self).row() == Some(id),
            final(self).content() == old(self).content(),
    ;

    fn duplicate(&self) -> (res: Self)
        ensures
            res.row() == self.row(),
            res.content() == self.content(),
    ;
}

/// A map with the actions to be carried out on it, by preset.
#[derive(Debug)]
pub struct GameMap {
    pub id: Option<i64>,
    pub name: String,
    pub width: i32,
    pub height: i32,
    pub platforms: Vec<Platform>,
    pub rotation_mode: RotationMode,
    pub rotation_ping_pong_bound: Bound,
    pub rotation_auto_mob_bound: Bound,
    pub actions: Vec<(String, Vec<Action>)>,
}

/// What is kept of a map.
#[verifier::ext_equal]
pub struct GameMapContent {
    pub name: Seq<char>,
    pub width: i32,
    pub height: i32,
    pub platforms: Seq<Platform>,
    pub rotation_mode: RotationMode,
    pub rotation_ping_pong_bound: Bound,
    pub rotation_auto_mob_bound: Bound,
    pub actions: Seq<(Seq<char>, Seq<Action>)>,
}

/// A preset of a map.
pub open spec fn preset(entry: (String, Vec<Action>)) -> (Seq<char>, Seq<Action>) {
    (entry.0@, entry.1@)
}

/// Whether no two entries have the same name.
pub open spec fn named_once<V>(entries: Seq<(Seq<char>, V)>) -> bool {
    forall|i: int, j: int|
        0 <= i < j < entries.len() ==> (#[trigger] entries[i]).0 != (#[trigger] entries[j]).0
}

impl GameMap {
    /// Each preset has a name of its own.
    pub open spec fn wf(&self) -> bool {
        named_once(self.content().actions)
    }
}

pub(crate) fn copy<T: Copy>(items: &Vec<T>) -> (res: Vec<T>)
    ensures
        res@ == items@,
{
    let mut res: Vec<T> = Vec::new();
    let mut i: usize = 0;
    while i < items.len()
        invariant
            i <= items@.len(),
            res@ =~= items@.take(i as int),
        decreases items@.len() - i,
    {
        res.push(items[i]);
        i = i + 1;
    }
    assert(items@.take(i as int) =~= items@);
    res
}

impl Identifiable for GameMap {
    type Content = GameMapContent;

    open spec fn content(&self) -> GameMapContent {
        GameMapContent {
            name: self.name@,
            width: self.width,
            height: self.height,
            platforms: self.platforms@,
            rotation_mode: self.rotation_mode,
            rotation_ping_pong_bound: self.rotation_ping_pong_bound,
            rotation_auto_mob_bound: self.rotation_auto_mob_bound,
            actions: Seq::new(self.actions@.len(), |i: int| preset(self.actions@[i])),
        }
    }

    open spec fn row(&self) -> Option<i64> {
        self.id
    }

    fn id(&self) -> Option<i64> {
        self.id
    }

    fn set_id(&mut self, id: i64) {
        self.id = Some(id);
    }

    fn duplicate(&self) -> Self {
        let mut actions: Vec<(String, Vec<Action>)> = Vec::new();
        let mut i: usize = 0;
        while i < self.actions.len()
            invariant
                i <= self.actions@.len(),
                actions@.len() == i,
                forall|j: int|
                    0 <= j < i ==> preset(#[trigger] actions@[j]) == preset(self.actions@[j]),
            decreases self.actions@.len() - i,
        {
            let entry: &(String, Vec<Action>) = &self.actions[i];
            actions.push((entry.0.clone(), copy(&entry.1)));
            i = i + 1;
        }
        let res: GameMap = GameMap {
            id: self.id,
            name: self.name.clone(),
            width: self.width,
            height: self.height,
            platforms: copy(&self.platforms),
            rotation_mode: self.rotation_mode,
            rotation_ping_pong_bound: self.rotation_ping_pong_bound,
            rotation_auto_mob_bound: self.rotation_auto_mob_bound,
            actions,
        };
        assert(res.content() =~= self.content());
        res
    }
}

#[derive(Debug)]
pub struct Character {
    pub id: Option<i64>,
    pub name: String,
    pub actions: Vec<Action>,
}

/// The name of a character and the actions it carries out on every map.
#[verifier::ext_equal]
pub struct CharacterContent {
    pub name: Seq<char>,
    pub actions: Seq<Action>,
}

impl Identifiable for Character {
    type Content = CharacterContent;

    open spec fn content(&self) -> CharacterContent {
        CharacterContent { name: self.name@, actions: self.actions@ }
    }

    open spec fn row(&self) -> Option<i64> {
        self.id
    }

    fn id(&self) -> Option<i64> {
        self.id
    }

    fn set_id(&mut self, id: i64) {
        self.id = Some(id);
    }

    fn duplicate(&self) -> Self {
        Character {
            id: self.id,
            name: self.name.clone(),
            actions: copy(&self.actions),
        }
    }
}

#[derive(Clone, Copy, PartialEq, Eq, Debug, Structural)]
pub struct Settings {
    pub id: Option<i64>,
    /// The key that starts and halts the rotation.
    pub toggle_actions_key: KeyBindingConfiguration,
}

impl Identifiable for Settings {
    type Content = KeyBindingConfiguration;

    open spec fn content(&self) -> KeyBindingConfiguration {
        self.toggle_actions_key
    }

    open spec fn row(&self) -> Option<i64> {
        self.id
    }

    fn id(&self) -> Option<i64> {
        self.id
    }

    fn set_id(&mut self, id: i64) {
        self.id = Some(id);
    }

    fn duplicate(&self) -> Self {
        *self
    }
}

/// Images, in place of those that the detections come with, to be looked for instead.
#[derive(Debug)]
pub struct Localization {
    pub id: Option<i64>,
    /// The names of the templates with their images in base 64.
    pub templates: Vec<(String, String)>,
}

impl Localization {
    /// Each template has a name of its own.
    pub open spec fn wf(&self) -> bool {
        named_once(self.content())
    }
}

impl Identifiable for Localization {
    type Content = Seq<(Seq<char>, Seq<char>)>;

    open spec fn content(&self) -> Seq<(Seq<char>, Seq<char>)> {
        Seq::new(
            self.templates@.len(),
            |i: int| (self.templates@[i].0@, self.templates@[i].1@),
        )
    }

    open spec fn row(&self) -> Option<i64> {
        self.id
    }

    fn id(&self) -> Option<i64> {
        self.id
    }

    fn set_id(&mut self, id: i64) {
        self.id = Some(id);
    }

    fn duplicate(&self) -> Self {
        let mut templates: Vec<(String, String)> = Vec::new();
        let mut i: usize = 0;
        while i < self.templates.len()
            invariant
                i <= self.templates@.len(),
                templates@.len() == i,
                forall|j: int|
                    0 <= j < i ==> (#[trigger] templates@[j]).0@ == self.templates@[j].0@
                        && templates@[j].1@ == self.templates@[j].1@,
            decreases self.templates@.len() - i,
        {
            let entry: &(String, String) = &self.templates[i];
            templates.push((entry.0.clone(), entry.1.clone()));
            i = i + 1;
        }
        let res: Localization = Localization { id: self.id, templates };
        assert(res.content() =~= self.content());
        res
    }
}

/// What random numbers are drawn from.
#[derive(Clone, Copy, PartialEq, Eq, Debug, Structural)]
pub struct Seeds {
    pub id: Option<i64>,
    pub rng_seed: u64,
    pub perlin_seed: u32,
}

impl Identifiable for Seeds {
    type Content = (u64, u32);

    open spec fn content(&self) -> (u64, u32) {
        (self.rng_seed, self.perlin_seed)
    }

    open spec fn row(&self) -> Option<i64> {
        self.id
    }

    fn id(&self) -> Option<i64> {
        self.id
    }

    fn set_id(&mut self, id: i64) {
        self.id = Some(id);
    }

    fn duplicate(&self) -> Self {
        *self
    }
}

/// What is read, stored or duplicated keeps its names apart, whatever row it is kept in.
pub proof fn law_names_stay_apart(
    map: GameMap,
    other_map: GameMap,
    localization: Localization,
    other_localization: Localization,
)
    requires
        other_map.content() == map.content(),
        other_localization.content() == localization.content(),
    ensures
        other_map.wf() == map.wf(),
        other_localization.wf() == localization.wf(),
{
}

} // verus!
