//! Choosing, creating, importing and deleting maps.

use vstd::prelude::*;

use crate::database::DatabaseEvent;
use crate::models::stored::{GameMap, GameMapContent, Identifiable};

verus! {

/// A map as it is kept.
pub open spec fn kept(map: Option<GameMap>) -> Option<(Option<i64>, GameMapContent)> {
    match map {
        Some(map) => Some((map.row(), map.content())),
        None => None,
    }
}

/// An optional text as characters.
pub open spec fn chars(text: Option<String>) -> Option<Seq<char>> {
    match text {
        Some(text) => Some(text@),
        None => None,
    }
}

/// The map that is selected and the preset of its actions.
#[derive(Debug)]
pub struct Selection {
    pub map: Option<GameMap>,
    pub preset: Option<String>,
}

#[verifier::ext_equal]
pub struct SelectionView {
    pub map: Option<(Option<i64>, GameMapContent)>,
    pub preset: Option<Seq<char>>,
}

impl View for Selection {
    type V = SelectionView;

    open spec fn view(&self) -> SelectionView {
        SelectionView { map: kept(self.map), preset: chars(self.preset) }
    }
}

/// A map without a preset.
pub open spec fn without_preset(map: Option<(Option<i64>, GameMapContent)>) -> SelectionView {
    SelectionView { map, preset: None }
}

/// What the user wants to be done with maps.
#[derive(Debug)]
pub enum MinimapUpdate {
    /// Makes use of what is selected.
    Use,
    Create(String),
    Import(GameMap),
    Delete,
}

/// What is to be done next for a [`MinimapUpdate`].
#[derive(Debug)]
pub enum MapWork {
    /// Create a map from what is seen, under a name; [`after_creating`] goes on from there.
    Create(String),
    /// Store a map that was created; [`after_storing_created`] goes on from there.
    StoreCreated(GameMap),
    /// Store a map that was imported; [`after_storing_imported`] goes on from there.
    StoreImported(GameMap),
    /// Delete a map; [`after_deleting`] goes on from there.
    Delete(GameMap),
    /// Rotate on a map with a preset from now on, and nothing more.
    Apply(Option<GameMap>, Option<String>),
    Nothing,
}

impl MapWork {
    /// Whether that selection is applied.
    pub open spec fn applies(self, selection: SelectionView) -> bool {
        match self {
            MapWork::Apply(map, preset) => kept(map) == selection.map && chars(preset)
                == selection.preset,
            _ => false,
        }
    }
}

fn duplicate(map: &Option<GameMap>) -> (res: Option<GameMap>)
    ensures
        kept(res) == kept(*map),
{
    match map {
        Some(map) => Some(map.duplicate()),
        None => None,
    }
}

fn duplicate_text(text: &Option<String>) -> (res: Option<String>)
    ensures
        chars(res) == chars(*text),
{
    match text {
        Some(text) => Some(text.clone()),
        None => None,
    }
}

/// What is to be done first.
pub fn begin(selection: &Selection, update: MinimapUpdate) -> (res: MapWork)
    ensures
        match update {
            MinimapUpdate::Use => res.applies(selection@),
            MinimapUpdate::Create(name) => res == MapWork::Create(name),
            MinimapUpdate::Import(map) => res == MapWork::StoreImported(map),
            MinimapUpdate::Delete => match res {
                MapWork::Delete(map) => kept(Some(map)) == selection@.map,
                MapWork::Nothing => selection@.map is None,
                _ => false,
            },
        },
{
    match update {
        MinimapUpdate::Use => MapWork::Apply(
            duplicate(&selection.map),
            duplicate_text(&selection.preset),
        ),
        MinimapUpdate::Create(name) => MapWork::Create(name),
        MinimapUpdate::Import(map) => MapWork::StoreImported(map),
        MinimapUpdate::Delete => match &selection.map {
            Some(map) => MapWork::Delete(map.duplicate()),
            None => MapWork::Nothing,
        },
    }
}

/// What follows when a map was created, or could not be.
pub fn after_creating(created: Option<GameMap>) -> (res: MapWork)
    ensures
        res == match created {
            Some(map) => MapWork::StoreCreated(map),
            None => MapWork::Nothing,
        },
{
    match created {
        Some(map) => MapWork::StoreCreated(map),
        None => MapWork::Nothing,
    }
}

/// What follows when a map that was created was stored. Where it could not be, everything stays as
/// it is.
pub fn after_storing_created(selection: &mut Selection, stored: Option<GameMap>) -> (res: MapWork)
    ensures
        if stored is Some {
            &&& final(selection)@ == without_preset(kept(stored))
            &&& res.applies(final(selection)@)
        } else {
            &&& *final(selection) == *old(selection)
            &&& res == MapWork::Nothing
        },
{
    match stored {
        Some(map) => {
            let applied: GameMap = map.duplicate();
            selection.map = Some(map);
            selection.preset = None;
            MapWork::Apply(Some(applied), None)
        },
        None => MapWork::Nothing,
    }
}

/// What follows when a map that was imported was stored. Where it could not be, no map is selected.
pub fn after_storing_imported(selection: &mut Selection, stored: Option<GameMap>) -> (res: MapWork)
    ensures
        final(selection)@ == without_preset(kept(stored)),
        res.applies(final(selection)@),
{
    let applied: Option<GameMap> = duplicate(&stored);
    selection.map = stored;
    selection.preset = None;
    MapWork::Apply(applied, None)
}

/// What follows when the selected map was deleted, or could not be. In the latter case everything
/// stays as it is.
pub fn after_deleting(selection: &mut Selection, deleted: bool) -> (res: MapWork)
    ensures
        if deleted {
            &&& final(selection)@ == without_preset(None)
            &&& res.applies(final(selection)@)
        } else {
            &&& *final(selection) == *old(selection)
            &&& res == MapWork::Nothing
        },
{
    if deleted {
        selection.map = None;
        selection.preset = None;
        MapWork::Apply(None, None)
    } else {
        MapWork::Nothing
    }
}

/// The first preset of a map.
pub open spec fn first_preset(map: GameMap) -> Option<Seq<char>> {
    if map.actions@.len() > 0 {
        Some(map.actions@[0].0@)
    } else {
        None
    }
}

/// A map together with its first preset.
pub open spec fn chosen(map: GameMap) -> SelectionView {
    SelectionView { map: kept(Some(map)), preset: first_preset(map) }
}

fn choose_map(selection: &mut Selection, map: &GameMap)
    ensures
        final(selection)@ == chosen(*map),
{
    selection.preset = if map.actions.len() > 0 {
        Some(map.actions[0].0.clone())
    } else {
        None
    };
    selection.map = Some(map.duplicate());
}

/// Selects the first map as soon as there are maps, unless one is selected already. Returns whether
/// there is now something to make use of.
pub fn select_initial(selection: &mut Selection, maps: &Option<Vec<GameMap>>) -> (res: bool)
    ensures
        res == (maps is Some && maps.unwrap()@.len() > 0 && old(selection).map is None),
        if res {
            final(selection)@ == chosen(maps.unwrap()@[0])
        } else {
            *final(selection) == *old(selection)
        },
{
    match maps {
        Some(maps) => {
            if maps.len() > 0 && selection.map.is_none() {
                choose_map(selection, &maps[0]);
                return true;
            }
            false
        },
        None => false,
    }
}

/// Selects the map at an index.
pub fn select_at(selection: &mut Selection, maps: &Vec<GameMap>, index: usize)
    requires
        index < maps@.len(),
    ensures
        final(selection)@ == chosen(maps@[index as int]),
{
    choose_map(selection, &maps[index]);
}

/// The names of all maps, in order. There are none until they have been read.
pub fn map_names(maps: &Option<Vec<GameMap>>) -> (res: Vec<String>)
    ensures
        match maps {
            Some(maps) => res@.len() == maps@.len() && forall|i: int|
                0 <= i < res@.len() ==> (#[trigger] res@[i])@ == maps@[i].name@,
            None => res@.len() == 0,
        },
{
    let mut names: Vec<String> = Vec::new();
    match maps {
        Some(maps) => {
            let mut i: usize = 0;
            while i < maps.len()
                invariant
                    i <= maps@.len(),
                    names@.len() == i,
                    forall|j: int| 0 <= j < i ==> (#[trigger] names@[j])@ == maps@[j].name@,
                decreases maps@.len() - i,
            {
                names.push(maps[i].name.clone());
                i = i + 1;
            }
        },
        None => {},
    }
    names
}

/// Whether a map is kept at an index and at no lower one.
pub open spec fn is_first_with(maps: Seq<GameMap>, row: Option<i64>, index: int) -> bool {
    &&& 0 <= index < maps.len()
    &&& maps[index].row() == row
    &&& forall|i: int| 0 <= i < index ==> #[trigger] maps[i].row() != row
}

fn same_row(a: Option<i64>, b: Option<i64>) -> (res: bool)
    ensures
        res == (a == b),
{
    match (a, b) {
        (Some(a), Some(b)) => a == b,
        (None, None) => true,
        _ => false,
    }
}

/// The index of the selected map, by the row that it is kept in.
pub fn map_index(maps: &Option<Vec<GameMap>>, map: &Option<GameMap>) -> (res: Option<usize>)
    ensures
        match res {
            Some(index) => maps is Some && map is Some && is_first_with(
                maps.unwrap()@,
                map.unwrap().row(),
                index as int,
            ),
            None => maps is Some && map is Some ==> forall|i: int|
                0 <= i < maps.unwrap()@.len() ==> #[trigger] maps.unwrap()@[i].row()
                    != map.unwrap().row(),
        },
{
    match (maps, map) {
        (Some(maps), Some(map)) => index_of(maps, map.id),
        _ => None,
    }
}

fn index_of(maps: &Vec<GameMap>, row: Option<i64>) -> (res: Option<usize>)
    ensures
        match res {
            Some(index) => is_first_with(maps@, row, index as int),
            None => forall|i: int| 0 <= i < maps@.len() ==> #[trigger] maps@[i].row() != row,
        },
{
    let mut i: usize = 0;
    while i < maps.len()
        invariant
            i <= maps@.len(),
            forall|j: int| 0 <= j < i ==> #[trigger] maps@[j].row() != row,
        decreases maps@.len() - i,
    {
        if same_row(row, maps[i].id) {
            return Some(i);
        }
        i = i + 1;
    }
    None
}

/// Whether the maps have to be read again after an event.
pub fn is_map_event(event: &DatabaseEvent) -> (res: bool)
    ensures
        res == (event is MapUpdated || event is MapDeleted),
{
    matches!(event, DatabaseEvent::MapUpdated(_) | DatabaseEvent::MapDeleted(_))
}

/// A map that was selected by its index is found at that index again, provided that no two maps are
/// kept in the same row.
pub proof fn law_selected_map_is_found_again(maps: Seq<GameMap>, index: int, found: int)
    requires
        0 <= index < maps.len(),
        forall|i: int, j: int|
            0 <= i < j < maps.len() ==> #[trigger] maps[i].row() != #[trigger] maps[j].row(),
        is_first_with(maps, chosen(maps[index]).map.unwrap().0, found),
    ensures
        found == index,
{
    if found < index {
        assert(maps[found].row() != maps[index].row());
    } else if index < found {
        assert(maps[index].row() != maps[found].row());
    }
}

/// A map that is chosen is selected as it is kept, with its first preset, or with none where it has
/// none.
pub proof fn law_chosen_map_comes_with_its_first_preset(map: GameMap)
    ensures
        chosen(map).map == Some((map.id, map.content())),
        map.actions@.len() == 0 ==> chosen(map).preset is None,
        map.actions@.len() > 0 ==> chosen(map).preset == Some(map.actions@[0].0@),
{
}

/// What is applied is a selection just when both the map and the preset are those of the selection.
pub proof fn law_applied_is_what_is_selected(
    selection: Selection,
    map: Option<GameMap>,
    preset: Option<String>,
)
    ensures
        MapWork::Apply(map, preset).applies(selection@) ==> {
            &&& map is Some <==> selection.map is Some
            &&& map is Some ==> map->0.id == selection.map->0.id && map->0.content()
                == selection.map->0.content()
            &&& preset is Some <==> selection.preset is Some
            &&& preset is Some ==> preset->0@ == selection.preset->0@
        },
        !MapWork::Nothing.applies(selection@),
        without_preset(selection@.map).map == selection@.map,
        without_preset(selection@.map).preset is None,
{
}

/// A map is found at the first index at which there is one with its row.
pub proof fn law_map_is_found_where_it_comes_first(
    before: Seq<GameMap>,
    map: GameMap,
    after: Seq<GameMap>,
)
    requires
        forall|i: int| 0 <= i < before.len() ==> (#[trigger] before[i]).id != map.id,
    ensures
        is_first_with(before + seq![map] + after, map.id, before.len() as int),
        forall|index: int| #[trigger]
            is_first_with(before + seq![map] + after, map.id, index) ==> index == before.len(),
{
    let maps = before + seq![map] + after;
    assert(maps[before.len() as int] == map);
    assert forall|i: int| 0 <= i < before.len() implies #[trigger] maps[i].row() != map.id by {
        assert(maps[i] == before[i]);
    }
    assert forall|index: int| #[trigger] is_first_with(maps, map.id, index) implies index
        == before.len() by {
        if index > before.len() {
            assert(maps[before.len() as int].row() == map.id);
        }
    }
}

} // verus!
