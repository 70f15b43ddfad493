//! Maps: their size, their player count and the buildings placed on them.
use vstd::prelude::*;

use bevy::platform::collections::HashMap;

use crate::collections::{
    building_table, counts, building_table_contains, building_table_entries, building_table_get_mut,
    building_table_insert, building_table_len, building_table_new, building_table_remove,
};
use crate::game::building::building_types::BuildingType;
use crate::game::building::{BuildingId, BuildingInfo};
use crate::world_grid::GridSize;
use crate::manifest::{lemma_content_fixed_by_files, manifest_text, maps_folder};
use crate::text::strictly_sorted;

verus! {

/// The name of a map, as an entity carries it.
#[derive(Clone, Debug, Default, PartialEq, Eq)]
pub struct MapName(String);

impl View for MapName {
    type V = Seq<char>;

    closed spec fn view(&self) -> Seq<char> {
        self.0@
    }
}

impl MapName {
    pub fn new(name: String) -> (map_name: MapName)
        ensures
            map_name@ == name@,
    {
        MapName(name)
    }

    pub fn name(&self) -> (name: String)
        ensures
            name@ == self@,
    {
        self.0.clone()
    }
}

/// A map as the editor builds it and a game starts from it.
pub struct GameMap {
    map_name: String,
    map_size: GridSize,
    max_players: usize,
    building_infos: HashMap<usize, BuildingInfo>,
}

/// What a map is: its name, size, player count and its buildings by id.
pub struct GameMapView {
    pub map_name: Seq<char>,
    pub map_size: GridSize,
    pub max_players: usize,
    pub buildings: Map<usize, BuildingInfo>,
}

impl View for GameMap {
    type V = GameMapView;

    closed spec fn view(&self) -> GameMapView {
        GameMapView {
            map_name: self.map_name@,
            map_size: self.map_size,
            max_players: self.max_players,
            buildings: building_table(self.building_infos),
        }
    }
}

/// `id` is the least building id that has no entry in `buildings`.
pub open spec fn least_free_id(buildings: Map<usize, BuildingInfo>, id: usize) -> bool {
    &&& !buildings.dom().contains(id)
    &&& forall|smaller: usize| smaller < id ==> buildings.dom().contains(smaller)
}

/// Every id below `bound` is taken, so at least `bound` ids are.
proof fn lemma_taken_prefix_len(dom: Set<usize>, bound: int)
    requires
        dom.finite(),
        0 <= bound <= usize::MAX + 1,
        forall|i: usize| i < bound ==> dom.contains(i),
    ensures
        bound <= dom.len(),
{
    let ints = Set::new(|i: int| 0 <= i < bound);
    let f = |i: int| i as usize;
    let prefix = ints.map(f);
    vstd::set_lib::lemma_int_range(0, bound);
    assert(ints =~= vstd::set_lib::set_int_range(0, bound));
    assert(vstd::relations::injective_on(f, ints)) by {
        assert forall|a: int, b: int| ints.contains(a) && ints.contains(b) && #[trigger] f(a) == #[trigger] f(b)
            implies a == b by {}
    }
    vstd::set_lib::lemma_map_size(ints, prefix, f);
    assert(prefix.subset_of(dom)) by {
        assert forall|i: usize| prefix.contains(i) implies dom.contains(i) by {
            let j = choose|j: int| ints.contains(j) && f(j) == i;
        }
    }
    vstd::set_lib::lemma_len_subset(prefix, dom);
}

/// The head quarter indices that buildings of the map use.
pub open spec fn hq_indices(buildings: Map<usize, BuildingInfo>) -> Set<usize> {
    Set::new(|index: usize| exists|id: usize| buildings.dom().contains(id)
        && #[trigger] buildings[id].building_type == (BuildingType::HeadQuarter { index }))
}

/// `index` is the least head quarter index no building of the map uses.
pub open spec fn least_free_hq_index(buildings: Map<usize, BuildingInfo>, index: usize) -> bool {
    &&& !hq_indices(buildings).contains(index)
    &&& forall|smaller: usize| smaller < index ==> hq_indices(buildings).contains(smaller)
}

/// The head quarter indices of a map are finitely many, at most one per
/// building.
proof fn lemma_hq_indices_finite(buildings: Map<usize, BuildingInfo>, entries: Seq<(usize, BuildingInfo)>)
    requires
        forall|i: int| 0 <= i < entries.len() ==> buildings.dom().contains(#[trigger] entries[i].0)
            && buildings[entries[i].0] == entries[i].1,
        forall|id: usize| buildings.dom().contains(id) ==> exists|i: int| 0 <= i < entries.len() && #[trigger] entries[i].0 == id,
    ensures
        hq_indices(buildings).finite(),
        hq_indices(buildings).len() <= entries.len(),
{
    let index_of = |e: (usize, BuildingInfo)| match e.1.building_type {
        BuildingType::HeadQuarter { index } => index,
        _ => 0usize,
    };
    let all = entries.map_values(index_of).to_set();
    vstd::seq_lib::seq_to_set_is_finite(entries.map_values(index_of));
    entries.map_values(index_of).lemma_cardinality_of_set();
    assert(hq_indices(buildings).subset_of(all)) by {
        assert forall|index: usize| hq_indices(buildings).contains(index) implies all.contains(index) by {
            let id = choose|id: usize| buildings.dom().contains(id)
                && #[trigger] buildings[id].building_type == (BuildingType::HeadQuarter { index });
            let i = choose|i: int| 0 <= i < entries.len() && #[trigger] entries[i].0 == id;
            assert(entries.map_values(index_of)[i] == index);
        }
    }
    vstd::set_lib::lemma_len_subset(hq_indices(buildings), all);
}

impl GameMap {
    pub fn new(map_name: String, map_size: GridSize, max_players: usize) -> (map: GameMap)
        ensures
            map@.map_name == map_name@,
            map@.map_size == map_size,
            map@.max_players == max_players,
            map@.buildings == Map::<usize, BuildingInfo>::empty(),
    {
        GameMap { map_name, map_size, max_players, building_infos: building_table_new() }
    }

    pub fn _set_size(&mut self, size: GridSize)
        ensures
            final(self)@ == (GameMapView { map_size: size, ..old(self)@ }),
    {
        self.map_size = size;
    }

    pub fn _set_max_players(&mut self, max_players: usize)
        ensures
            final(self)@ == (GameMapView { max_players, ..old(self)@ }),
    {
        self.max_players = max_players;
    }

    /// Places a building under the least id that is free and returns that id.
    pub fn add_building(&mut self, building_info: BuildingInfo) -> (building_id: BuildingId)
        ensures
            least_free_id(old(self)@.buildings, building_id.0),
            final(self)@ == (GameMapView {
                buildings: old(self)@.buildings.insert(building_id.0, building_info),
                ..old(self)@
            }),
    {
        let building_id = self.next_building_id();
        building_table_insert(&mut self.building_infos, building_id.id(), building_info);
        building_id
    }

    /// Records a building under a given id, replacing what the map had under
    /// it; this is how a saved map is rebuilt with the ids it was saved with.
    pub fn insert_building(&mut self, building_id: BuildingId, building_info: BuildingInfo)
        ensures
            final(self)@ == (GameMapView {
                buildings: old(self)@.buildings.insert(building_id.0, building_info),
                ..old(self)@
            }),
    {
        building_table_insert(&mut self.building_infos, building_id.id(), building_info);
    }

    /// Removes the building with this id, if the map has one.
    pub fn remove_building(&mut self, building_id: BuildingId)
        ensures
            final(self)@ == (GameMapView { buildings: old(self)@.buildings.remove(building_id.0), ..old(self)@ }),
    {
        building_table_remove(&mut self.building_infos, building_id.id());
    }

    pub fn map_name(&self) -> (name: String)
        ensures
            name@ == self@.map_name,
    {
        self.map_name.clone()
    }

    /// The buildings of the map, each once, in no stated order.
    pub fn building_infos(&self) -> (infos: Vec<BuildingInfo>)
        ensures
            exists|ids: Seq<usize>| #[trigger] ids.len() == infos@.len() && {
                &&& ids.no_duplicates()
                &&& ids.to_set() == self@.buildings.dom()
                &&& forall|i: int| 0 <= i < ids.len() ==> self@.buildings[#[trigger] ids[i]] == infos@[i]
            },
    {
        let entries = self.building_entries();
        let mut infos: Vec<BuildingInfo> = Vec::new();
        let ghost ids = entries@.map_values(|e: (BuildingId, BuildingInfo)| e.0.0);
        for i in 0..entries.len()
            invariant
                infos@.len() == i,
                ids == entries@.map_values(|e: (BuildingId, BuildingInfo)| e.0.0),
                forall|j: int| 0 <= j < i ==> infos@[j] == entries@[j].1,
        {
            infos.push(entries[i].1);
        }
        proof {
            assert forall|i: int| 0 <= i < ids.len() implies self@.buildings[#[trigger] ids[i]] == infos@[i] by {
                assert(ids[i] == entries@[i].0.0);
            }
            assert forall|a: int, b: int| 0 <= a < ids.len() && 0 <= b < ids.len() && a != b
                implies ids[a] != ids[b] by {
                assert(ids[a] == entries@[a].0.0 && ids[b] == entries@[b].0.0);
            }
            assert(ids.no_duplicates());
            assert forall|id: usize| #[trigger] ids.to_set().contains(id) <==> self@.buildings.dom().contains(id) by {
                if self@.buildings.dom().contains(id) {
                    let i = choose|i: int| 0 <= i < entries@.len() && entries@[i].0.0 == id;
                    assert(ids[i] == id);
                }
                if ids.to_set().contains(id) {
                    let i = choose|i: int| 0 <= i < ids.len() && ids[i] == id;
                    assert(ids[i] == entries@[i].0.0);
                }
            }
            assert(ids.to_set() =~= self@.buildings.dom());
        }
        infos
    }

    /// The buildings of the map with their ids, each once, in no stated order.
    pub fn building_entries(&self) -> (entries: Vec<(BuildingId, BuildingInfo)>)
        ensures
            entries@.len() == self@.buildings.dom().len(),
            forall|i: int, j: int| 0 <= i < j < entries@.len() ==> entries@[i].0 != entries@[j].0,
            forall|i: int| 0 <= i < entries@.len() ==> self@.buildings.dom().contains(#[trigger] entries@[i].0.0)
                && self@.buildings[entries@[i].0.0] == entries@[i].1,
            forall|id: usize| self@.buildings.dom().contains(id) ==> exists|i: int| 0 <= i < entries@.len() && #[trigger] entries@[i].0.0 == id,
    {
        let raw = building_table_entries(&self.building_infos);
        let mut entries: Vec<(BuildingId, BuildingInfo)> = Vec::new();
        for i in 0..raw.len()
            invariant
                entries@.len() == i,
                forall|j: int| 0 <= j < i ==> (#[trigger] entries@[j]).0.0 == raw@[j].0 && entries@[j].1 == raw@[j].1,
        {
            entries.push((BuildingId::new(raw[i].0), raw[i].1));
        }
        proof {
            assert forall|id: usize| self@.buildings.dom().contains(id) implies
                exists|i: int| 0 <= i < entries@.len() && #[trigger] entries@[i].0.0 == id by {
                let i = choose|i: int| 0 <= i < raw@.len() && #[trigger] raw@[i].0 == id;
                assert(entries@[i].0.0 == id);
            }
            assert forall|i: int, j: int| 0 <= i < j < entries@.len() implies entries@[i].0 != entries@[j].0 by {
                assert(entries@[i].0.0 == raw@[i].0 && entries@[j].0.0 == raw@[j].0);
            }
            assert forall|i: int| 0 <= i < entries@.len() implies self@.buildings.dom().contains(#[trigger] entries@[i].0.0)
                && self@.buildings[entries@[i].0.0] == entries@[i].1 by {
                assert(entries@[i].0.0 == raw@[i].0);
            }
        }
        entries
    }

    pub fn size(&self) -> (size: GridSize)
        ensures
            size == self@.map_size,
    {
        self.map_size
    }

    pub fn max_players(&self) -> (max_players: usize)
        ensures
            max_players == self@.max_players,
    {
        self.max_players
    }

    /// The building with this id, if the map has one; what is written
    /// through the reference becomes that building's record.
    pub fn get_building_info_mut(&mut self, building_id: BuildingId) -> (info: Option<&mut BuildingInfo>)
        ensures
            info is Some <==> old(self)@.buildings.dom().contains(building_id.0),
            info is Some ==> *info->0 == old(self)@.buildings[building_id.0],
            info is Some ==> final(self)@ == (GameMapView {
                buildings: old(self)@.buildings.insert(building_id.0, *final(info->0)),
                ..old(self)@
            }),
            info is None ==> final(self)@ == old(self)@,
    {
        building_table_get_mut(&mut self.building_infos, building_id.id())
    }

    /// The least head quarter index that no head quarter of the map uses,
    /// for the next head quarter placed in the editor.
    pub fn next_main_building_index(&self) -> (index: usize)
        ensures
            least_free_hq_index(self@.buildings, index),
    {
        let entries = building_table_entries(&self.building_infos);
        let ghost used = hq_indices(self@.buildings);
        proof {
            lemma_hq_indices_finite(self@.buildings, entries@);
        }
        let mut index: usize = 0;
        loop
            invariant
                used == hq_indices(self@.buildings),
                used.finite(),
                used.len() <= entries@.len(),
                entries@.len() == self@.buildings.dom().len(),
                forall|i: int| 0 <= i < entries@.len() ==> self@.buildings.dom().contains(#[trigger] entries@[i].0)
                    && self@.buildings[entries@[i].0] == entries@[i].1,
                forall|id: usize| self@.buildings.dom().contains(id) ==> exists|i: int| 0 <= i < entries@.len() && #[trigger] entries@[i].0 == id,
                forall|smaller: usize| smaller < index ==> used.contains(smaller),
            decreases entries@.len() - index,
        {
            let mut found = false;
            let mut k: usize = 0;
            while k < entries.len()
                invariant
                    k <= entries@.len(),
                    found == exists|j: int| 0 <= j < k && entries@[j].1.building_type == (BuildingType::HeadQuarter { index }),
                decreases entries@.len() - k,
            {
                match entries[k].1.building_type {
                    BuildingType::HeadQuarter { index: used_index } => {
                        if used_index == index {
                            found = true;
                        }
                    },
                    _ => {},
                }
                k = k + 1;
            }
            proof {
                if found {
                    let j = choose|j: int| 0 <= j < k && entries@[j].1.building_type == (BuildingType::HeadQuarter { index });
                    assert(self@.buildings[entries@[j].0].building_type == (BuildingType::HeadQuarter { index }));
                    assert(used.contains(index));
                } else {
                    assert forall|id: usize| self@.buildings.dom().contains(id) implies
                        self@.buildings[id].building_type != (BuildingType::HeadQuarter { index }) by {
                        let j = choose|j: int| 0 <= j < entries@.len() && #[trigger] entries@[j].0 == id;
                        assert(entries@[j].1.building_type != (BuildingType::HeadQuarter { index }));
                    }
                    assert(!used.contains(index));
                }
            }
            if !found {
                return index;
            }
            proof {
                assert forall|i: usize| i < index + 1 implies used.contains(i) by {}
                lemma_taken_prefix_len(used, index + 1);
            }
            index = index + 1;
        }
    }

    /// The least id that has no building yet.
    fn next_building_id(&self) -> (building_id: BuildingId)
        ensures
            least_free_id(self@.buildings, building_id.0),
    {
        let count = building_table_len(&self.building_infos);
        let mut id = BuildingId::new(0);
        while building_table_contains(&self.building_infos, id.id())
            invariant
                counts(self@.buildings.dom(), count),
                forall|smaller: usize| smaller < id.0 ==> self@.buildings.dom().contains(smaller),
            decreases count - id.0,
        {
            proof {
                assert forall|i: usize| i < id.0 + 1 implies self@.buildings.dom().contains(i) by {}
                lemma_taken_prefix_len(self@.buildings.dom(), id.0 + 1);
            }
            let new_id = id.id() + 1;
            id = BuildingId::new(new_id);
        }
        id
    }
}

/// The part of a path after its last `/` (all of it when there is none).
pub open spec fn last_segment(path: Seq<char>) -> Seq<char>
    decreases path.len(),
{
    if path.len() == 0 {
        path
    } else if path.last() == '/' {
        Seq::empty()
    } else {
        last_segment(path.drop_last()).push(path.last())
    }
}

/// The part of a file name before its first `.` (all of it when there is none).
pub open spec fn stem(file_name: Seq<char>) -> Seq<char>
    decreases file_name.len(),
{
    if file_name.len() == 0 {
        file_name
    } else if file_name[0] == '.' {
        Seq::empty()
    } else {
        seq![file_name[0]] + stem(file_name.drop_first())
    }
}

/// The name of the map stored in a file: the file name without folders
/// and extension.
pub open spec fn map_name_of_file(file: Seq<char>) -> Seq<char> {
    stem(last_segment(file))
}

/// The extension of map files.
pub open spec fn map_extension() -> Seq<char> {
    ".map"@
}

/// The file a map of this name is saved to.
pub open spec fn map_file_of_name(map_name: Seq<char>) -> Seq<char> {
    maps_folder() + map_name + map_extension()
}

proof fn lemma_stem_prefix(name: Seq<char>, end: int)
    requires
        0 <= end <= name.len(),
        forall|k: int| 0 <= k < end ==> name[k] != '.',
        end == name.len() || name[end] == '.',
    ensures
        stem(name) == name.take(end),
    decreases end,
{
    if end == 0 {
        if name.len() > 0 {
            assert(name[0] == '.');
        }
        assert(name.take(0) =~= Seq::<char>::empty());
    } else {
        assert(name.drop_first()[end - 1] == name[end] || end == name.len());
        lemma_stem_prefix(name.drop_first(), end - 1);
        assert(seq![name[0]] + name.drop_first().take(end - 1) =~= name.take(end));
    }
}

/// The name of the map stored in `file`: what follows the last `/`, up to
/// the first `.`.
pub fn map_name_from_file(file: &str) -> (map_name: String)
    ensures
        map_name@ == map_name_of_file(file@),
{
    let len = file.unicode_len();
    let mut start: usize = 0;
    assert(file@.take(0) =~= Seq::<char>::empty());
    for i in 0..len
        invariant
            len == file@.len(),
            start <= i,
            file@.subrange(start as int, i as int) == last_segment(file@.take(i as int)),
    {
        proof {
            assert(file@.take(i + 1).drop_last() =~= file@.take(i as int));
            assert(file@.take(i + 1).last() == file@[i as int]);
        }
        if file.get_char(i) == '/' {
            start = i + 1;
            proof {
                assert(file@.subrange(start as int, start as int) =~= Seq::<char>::empty());
            }
        } else {
            proof {
                assert(file@.subrange(start as int, i + 1) =~= file@.subrange(start as int, i as int).push(file@[i as int]));
            }
        }
    }
    assert(file@.take(len as int) =~= file@);
    let segment = file.substring_char(start, len);
    let seg_len = segment.unicode_len();
    let mut end: usize = 0;
    while end < seg_len && segment.get_char(end) != '.'
        invariant
            seg_len == segment@.len(),
            end <= seg_len,
            forall|k: int| 0 <= k < end ==> segment@[k] != '.',
        decreases seg_len - end,
    {
        end = end + 1;
    }
    proof {
        lemma_stem_prefix(segment@, end as int);
        assert(segment@.subrange(0, end as int) =~= segment@.take(end as int));
    }
    String::from_str(segment.substring_char(0, end))
}

/// Where the game finds a map: a handle to it once loaded or created, or the
/// path of its file.
#[derive(Clone)]
pub enum MapAccess<H> {
    Handle(H),
    AssetPath(String),
}

/// A map known by name and how to reach it.
#[derive(Clone)]
pub struct MapInfo<H> {
    map_name: String,
    map_access: MapAccess<H>,
}

impl<H> MapInfo<H> {
    pub closed spec fn spec_map_name(&self) -> Seq<char> {
        self.map_name@
    }

    pub closed spec fn spec_map_access(&self) -> &MapAccess<H> {
        &self.map_access
    }

    pub fn new(map_name: String, map_access: MapAccess<H>) -> (info: MapInfo<H>)
        ensures
            info.spec_map_name() == map_name@,
            *info.spec_map_access() == map_access,
    {
        MapInfo { map_name, map_access }
    }

    /// The map stored in `file`, reached through that path.
    pub fn from_file(file: String) -> (info: MapInfo<H>)
        ensures
            info.spec_map_name() == map_name_of_file(file@),
            *info.spec_map_access() == MapAccess::<H>::AssetPath(file),
    {
        let map_name = map_name_from_file(file.as_str());
        MapInfo { map_name, map_access: MapAccess::AssetPath(file) }
    }

    pub fn map_name(&self) -> (map_name: String)
        ensures
            map_name@ == self.spec_map_name(),
    {
        self.map_name.clone()
    }

    /// The file the map is saved to: `maps/<name>.map`.
    pub fn path(&self) -> (path: String)
        ensures
            path@ == map_file_of_name(self.spec_map_name()),
    {
        let mut path = String::from_str("maps/");
        path.append(self.map_name.as_str());
        path.append(".map");
        path
    }

    pub fn _map_access(&self) -> (map_access: &MapAccess<H>)
        ensures
            *map_access == *self.spec_map_access(),
    {
        &self.map_access
    }
}

/// The maps the game knows about, each under its name. No two of them share
/// a name.
pub struct MapCollection<H> {
    maps: Vec<MapInfo<H>>,
}

impl<H> View for MapCollection<H> {
    type V = Map<Seq<char>, MapInfo<H>>;

    closed spec fn view(&self) -> Map<Seq<char>, MapInfo<H>> {
        Map::new(
            |name: Seq<char>| exists|i: int| 0 <= i < self.maps@.len() && #[trigger] self.maps@[i].spec_map_name() == name,
            |name: Seq<char>| self.maps@[choose|i: int| 0 <= i < self.maps@.len() && #[trigger] self.maps@[i].spec_map_name() == name],
        )
    }
}

impl<H> MapCollection<H> {
    #[verifier::type_invariant]
    spec fn names_distinct(&self) -> bool {
        forall|i: int, j: int| 0 <= i < j < self.maps@.len()
            ==> #[trigger] self.maps@[i].spec_map_name() != #[trigger] self.maps@[j].spec_map_name()
    }

    /// Under distinct names, the map stored under a name is the one at the
    /// position that has it.
    proof fn lemma_found_at(&self, i: int)
        requires
            self.names_distinct(),
            0 <= i < self.maps@.len(),
        ensures
            self@.dom().contains(self.maps@[i].spec_map_name()),
            self@[self.maps@[i].spec_map_name()] == self.maps@[i],
    {
        let name = self.maps@[i].spec_map_name();
        assert(self@.dom().contains(name));
        let k = choose|k: int| 0 <= k < self.maps@.len() && #[trigger] self.maps@[k].spec_map_name() == name;
        if k != i {
            if k < i {
                assert(self.maps@[k].spec_map_name() != self.maps@[i].spec_map_name());
            } else {
                assert(self.maps@[i].spec_map_name() != self.maps@[k].spec_map_name());
            }
        }
    }

    /// No map is known yet.
    pub fn new() -> (collection: MapCollection<H>)
        ensures
            collection@ == Map::<Seq<char>, MapInfo<H>>::empty(),
    {
        let collection = MapCollection { maps: Vec::new() };
        assert(collection@ =~= Map::<Seq<char>, MapInfo<H>>::empty());
        collection
    }

    /// The maps stored in these files, each reached through its path and
    /// known under the name its file gives it; of files that give the same
    /// name, the last one counts.
    pub fn from_files(files: &Vec<String>) -> (collection: MapCollection<H>)
        ensures
            forall|name: Seq<char>| #[trigger] collection@.dom().contains(name)
                <==> exists|i: int| 0 <= i < files@.len() && map_name_of_file(files@[i]@) == name,
            forall|name: Seq<char>| #[trigger] collection@.dom().contains(name) ==> exists|i: int| {
                &&& 0 <= i < files@.len()
                &&& map_name_of_file(files@[i]@) == name
                &&& forall|j: int| i < j < files@.len() ==> map_name_of_file(#[trigger] files@[j]@) != name
                &&& collection@[name].spec_map_name() == name
                &&& *collection@[name].spec_map_access() == MapAccess::<H>::AssetPath(files@[i])
            },
    {
        let mut collection = MapCollection::new();
        for k in 0..files.len()
            invariant
                forall|name: Seq<char>| #[trigger] collection@.dom().contains(name)
                    <==> exists|i: int| 0 <= i < k && map_name_of_file(files@[i]@) == name,
                forall|name: Seq<char>| #[trigger] collection@.dom().contains(name) ==> exists|i: int| {
                    &&& 0 <= i < k
                    &&& map_name_of_file(files@[i]@) == name
                    &&& forall|j: int| i < j < k ==> map_name_of_file(#[trigger] files@[j]@) != name
                    &&& collection@[name].spec_map_name() == name
                    &&& *collection@[name].spec_map_access() == MapAccess::<H>::AssetPath(files@[i])
                },
        {
            let ghost before = collection@;
            let info = MapInfo::from_file(files[k].clone());
            let ghost name = map_name_of_file(files@[k as int]@);
            collection._add_map(info);
            proof {
                assert forall|n: Seq<char>| #[trigger] collection@.dom().contains(n)
                    <==> exists|i: int| 0 <= i < k + 1 && map_name_of_file(files@[i]@) == n by {
                    if n != name && collection@.dom().contains(n) {
                        assert(before.dom().contains(n));
                    }
                }
                assert forall|n: Seq<char>| #[trigger] collection@.dom().contains(n) implies exists|i: int| {
                    &&& 0 <= i < k + 1
                    &&& map_name_of_file(files@[i]@) == n
                    &&& forall|j: int| i < j < k + 1 ==> map_name_of_file(#[trigger] files@[j]@) != n
                    &&& collection@[n].spec_map_name() == n
                    &&& *collection@[n].spec_map_access() == MapAccess::<H>::AssetPath(files@[i])
                } by {
                    if n == name {
                        assert(collection@[n] == info);
                    } else {
                        assert(before.dom().contains(n));
                        let i = choose|i: int| {
                            &&& 0 <= i < k
                            &&& map_name_of_file(files@[i]@) == n
                            &&& forall|j: int| i < j < k ==> map_name_of_file(#[trigger] files@[j]@) != n
                            &&& before[n].spec_map_name() == n
                            &&& *before[n].spec_map_access() == MapAccess::<H>::AssetPath(files@[i])
                        };
                        assert(forall|j: int| i < j < k + 1 ==> map_name_of_file(#[trigger] files@[j]@) != n);
                    }
                }
            }
        }
        collection
    }

    /// Where the map of this name is kept, if any.
    fn position(&self, map_name: &String) -> (index: Option<usize>)
        ensures
            match index {
                Some(i) => i < self.maps@.len() && self.maps@[i as int].spec_map_name() == map_name@,
                None => forall|i: int| 0 <= i < self.maps@.len() ==> #[trigger] self.maps@[i].spec_map_name() != map_name@,
            },
    {
        for i in 0..self.maps.len()
            invariant
                forall|j: int| 0 <= j < i ==> #[trigger] self.maps@[j].spec_map_name() != map_name@,
        {
            if self.maps[i].map_name == *map_name {
                return Some(i);
            }
        }
        None
    }

    /// The known maps, each once, in no stated order.
    pub fn map_infos(&self) -> (infos: &[MapInfo<H>])
        ensures
            forall|i: int, j: int| 0 <= i < j < infos@.len() ==> infos@[i].spec_map_name() != infos@[j].spec_map_name(),
            forall|i: int| 0 <= i < infos@.len() ==> self@.dom().contains(#[trigger] infos@[i].spec_map_name())
                && self@[infos@[i].spec_map_name()] == infos@[i],
            forall|name: Seq<char>| #[trigger] self@.dom().contains(name)
                ==> exists|i: int| 0 <= i < infos@.len() && infos@[i].spec_map_name() == name,
    {
        proof {
            use_type_invariant(self);
            assert forall|i: int| 0 <= i < self.maps@.len() implies self@.dom().contains(#[trigger] self.maps@[i].spec_map_name())
                && self@[self.maps@[i].spec_map_name()] == self.maps@[i] by {
                self.lemma_found_at(i);
            }
        }
        self.maps.as_slice()
    }

    /// The map of this name, if it is known.
    pub fn map_info(&self, map_name: String) -> (info: Option<&MapInfo<H>>)
        ensures
            info is Some <==> self@.dom().contains(map_name@),
            info is Some ==> *info->0 == self@[map_name@],
    {
        proof { use_type_invariant(self); }
        match self.position(&map_name) {
            Some(i) => {
                proof { self.lemma_found_at(i as int); }
                Some(&self.maps[i])
            },
            None => None,
        }
    }

    /// Records a map under its name, in place of any map of the same name.
    pub fn _add_map(&mut self, map_info: MapInfo<H>)
        ensures
            final(self)@ == old(self)@.insert(map_info.spec_map_name(), map_info),
    {
        proof { use_type_invariant(&*self); }
        let position = self.position(&map_info.map_name);
        let ghost before = *self;
        let ghost name = map_info.spec_map_name();
        let mut maps: Vec<MapInfo<H>> = Vec::new();
        std::mem::swap(&mut maps, &mut self.maps);
        match position {
            Some(i) => {
                maps.set(i, map_info);
            },
            None => {
                maps.push(map_info);
            },
        }
        self.maps = maps;
        proof {
            assert forall|k: int| 0 <= k < before.maps@.len() && self.maps@[k].spec_map_name() != name
                implies self.maps@[k] == before.maps@[k] by {}
            assert forall|n: Seq<char>| #[trigger] self@.dom().contains(n) <==> before@.insert(name, map_info).dom().contains(n) by {
                if self@.dom().contains(n) {
                    let k = choose|k: int| 0 <= k < self.maps@.len() && #[trigger] self.maps@[k].spec_map_name() == n;
                    if n != name {
                        assert(before.maps@[k].spec_map_name() == n);
                    }
                }
                if before@.dom().contains(n) && n != name {
                    let k = choose|k: int| 0 <= k < before.maps@.len() && #[trigger] before.maps@[k].spec_map_name() == n;
                    assert(self.maps@[k].spec_map_name() == n);
                }
                if n == name {
                    let k: int = match position {
                        Some(i) => i as int,
                        None => self.maps@.len() - 1,
                    };
                    assert(self.maps@[k].spec_map_name() == n);
                }
            }
            assert forall|n: Seq<char>| #[trigger] self@.dom().contains(n) implies self@[n] == before@.insert(name, map_info)[n] by {
                let k = choose|k: int| 0 <= k < self.maps@.len() && #[trigger] self.maps@[k].spec_map_name() == n;
                self.lemma_found_at(k);
                if n != name {
                    before.lemma_found_at(k);
                }
            }
            assert(self@ =~= before@.insert(name, map_info));
        }
    }

    /// Forgets the map of this name, if it is known.
    pub fn remove(&mut self, map_name: String)
        ensures
            final(self)@ == old(self)@.remove(map_name@),
    {
        proof { use_type_invariant(&*self); }
        let position = self.position(&map_name);
        let ghost before = *self;
        let mut maps: Vec<MapInfo<H>> = Vec::new();
        std::mem::swap(&mut maps, &mut self.maps);
        match position {
            Some(i) => {
                maps.remove(i);
            },
            None => {},
        }
        self.maps = maps;
        proof {
            let name = map_name@;
            assert forall|n: Seq<char>| #[trigger] self@.dom().contains(n) <==> before@.remove(name).dom().contains(n) by {
                if self@.dom().contains(n) {
                    let k = choose|k: int| 0 <= k < self.maps@.len() && #[trigger] self.maps@[k].spec_map_name() == n;
                    match position {
                        Some(i) => {
                            if k < i {
                                assert(before.maps@[k].spec_map_name() == n);
                            } else {
                                assert(before.maps@[k + 1].spec_map_name() == n);
                                assert(before.maps@[i as int].spec_map_name() != before.maps@[k + 1].spec_map_name());
                            }
                        },
                        None => {
                            assert(before.maps@[k].spec_map_name() == n);
                        },
                    }
                }
                if before@.dom().contains(n) && n != name {
                    let k = choose|k: int| 0 <= k < before.maps@.len() && #[trigger] before.maps@[k].spec_map_name() == n;
                    match position {
                        Some(i) => {
                            if k < i {
                                assert(self.maps@[k].spec_map_name() == n);
                            } else {
                                assert(k != i);
                                assert(self.maps@[k - 1].spec_map_name() == n);
                            }
                        },
                        None => {
                            assert(self.maps@[k].spec_map_name() == n);
                        },
                    }
                }
            }
            assert forall|n: Seq<char>| #[trigger] self@.dom().contains(n) implies self@[n] == before@.remove(name)[n] by {
                let k = choose|k: int| 0 <= k < self.maps@.len() && #[trigger] self.maps@[k].spec_map_name() == n;
                self.lemma_found_at(k);
                match position {
                    Some(i) => {
                        if k < i {
                            before.lemma_found_at(k);
                        } else {
                            before.lemma_found_at(k + 1);
                        }
                    },
                    None => {
                        before.lemma_found_at(k);
                    },
                }
            }
            assert(self@ =~= before@.remove(name));
        }
    }
}

proof fn lemma_last_segment_after_slash(folder: Seq<char>, name: Seq<char>)
    requires
        folder.len() > 0,
        folder.last() == '/',
        !name.contains('/'),
    ensures
        last_segment(folder + name) == name,
    decreases name.len(),
{
    if name.len() == 0 {
        assert(folder + name =~= folder);
    } else {
        assert((folder + name).last() == name.last());
        assert(name.last() != '/') by {
            assert(name[name.len() - 1] == name.last());
        }
        assert((folder + name).drop_last() =~= folder + name.drop_last());
        assert(!name.drop_last().contains('/')) by {
            if name.drop_last().contains('/') {
                let k = choose|k: int| 0 <= k < name.drop_last().len() && name.drop_last()[k] == '/';
                assert(name[k] == '/');
            }
        }
        lemma_last_segment_after_slash(folder, name.drop_last());
        assert(name.drop_last().push(name.last()) =~= name);
    }
}

proof fn lemma_stem_before_dot(name: Seq<char>, extension: Seq<char>)
    requires
        !name.contains('.'),
        extension.len() > 0,
        extension[0] == '.',
    ensures
        stem(name + extension) == name,
    decreases name.len(),
{
    if name.len() == 0 {
        assert(name + extension =~= extension);
        assert(stem(extension) =~= Seq::<char>::empty());
    } else {
        assert(name[0] != '.') by {
            if name[0] == '.' {
                assert(name.contains('.'));
            }
        }
        assert((name + extension).drop_first() =~= name.drop_first() + extension);
        assert(!name.drop_first().contains('.')) by {
            if name.drop_first().contains('.') {
                let k = choose|k: int| 0 <= k < name.drop_first().len() && name.drop_first()[k] == '.';
                assert(name[k + 1] == '.');
            }
        }
        lemma_stem_before_dot(name.drop_first(), extension);
        assert(seq![name[0]] + name.drop_first() =~= name);
    }
}

/// A map saved under a name (without `/` or `.`) is found again under that
/// name: the file it is saved to lies in the maps folder and names it.
pub proof fn lemma_map_file_names_its_map(map_name: Seq<char>)
    requires
        !map_name.contains('/'),
        !map_name.contains('.'),
    ensures
        maps_folder().is_prefix_of(map_file_of_name(map_name)),
        map_name_of_file(map_file_of_name(map_name)) == map_name,
{
    reveal_strlit("maps/");
    reveal_strlit(".map");
    let folder = maps_folder();
    let extension = map_extension();
    assert(folder.last() == '/');
    assert(extension[0] == '.');
    assert(!extension.contains('/')) by {
        if extension.contains('/') {
            let k = choose|k: int| 0 <= k < extension.len() && extension[k] == '/';
        }
    }
    assert(!(map_name + extension).contains('/')) by {
        if (map_name + extension).contains('/') {
            let k = choose|k: int| 0 <= k < (map_name + extension).len() && (map_name + extension)[k] == '/';
            if k < map_name.len() {
                assert(map_name[k] == '/');
            } else {
                assert(extension[k - map_name.len()] == '/');
            }
        }
    }
    assert(map_file_of_name(map_name) =~= folder + (map_name + extension));
    lemma_last_segment_after_slash(folder, map_name + extension);
    lemma_stem_before_dot(map_name, extension);
    assert(map_file_of_name(map_name).take(folder.len() as int) =~= folder);
}

/// Adding a building leaves every other building where it was, and
/// removing it again gives back the map as it was.
pub proof fn lemma_add_then_remove_building(buildings: Map<usize, BuildingInfo>, id: usize, info: BuildingInfo)
    requires
        least_free_id(buildings, id),
    ensures
        forall|other: usize| buildings.dom().contains(other) ==> #[trigger] buildings.insert(id, info)[other] == buildings[other],
        buildings.insert(id, info).remove(id) == buildings,
{
    assert(buildings.insert(id, info).remove(id) =~= buildings);
}

/// Ids are handed out from the bottom: when every id below that of a removed
/// building is still taken, the next building gets the removed id back.
pub proof fn lemma_removed_id_is_reused(buildings: Map<usize, BuildingInfo>, id: usize)
    requires
        buildings.dom().contains(id),
        forall|smaller: usize| smaller < id ==> buildings.dom().contains(smaller),
    ensures
        least_free_id(buildings.remove(id), id),
{
}

/// Two buildings added one after the other get different ids.
pub proof fn lemma_added_ids_differ(
    buildings: Map<usize, BuildingInfo>,
    first: usize,
    first_info: BuildingInfo,
    second: usize,
)
    requires
        least_free_id(buildings, first),
        least_free_id(buildings.insert(first, first_info), second),
    ensures
        first != second,
{
}

/// Saving a map twice leaves what saving it once leaves: the collection
/// knows it under its name, the manifest lists its file once, and the
/// manifest text written the second time is the one written the first time.
pub proof fn lemma_saving_a_map_twice<H>(
    maps: Map<Seq<char>, MapInfo<H>>,
    files: Set<Seq<char>>,
    map_info: MapInfo<H>,
    once: Seq<Seq<char>>,
    twice: Seq<Seq<char>>,
)
    requires
        strictly_sorted(once),
        once.to_set() == files.insert(map_file_of_name(map_info.spec_map_name())),
        strictly_sorted(twice),
        twice.to_set() == files.insert(map_file_of_name(map_info.spec_map_name())).insert(
            map_file_of_name(map_info.spec_map_name()),
        ),
    ensures
        maps.insert(map_info.spec_map_name(), map_info).insert(map_info.spec_map_name(), map_info)
            == maps.insert(map_info.spec_map_name(), map_info),
        files.insert(map_file_of_name(map_info.spec_map_name())).insert(map_file_of_name(map_info.spec_map_name()))
            == files.insert(map_file_of_name(map_info.spec_map_name())),
        manifest_text(twice) == manifest_text(once),
{
    let name = map_info.spec_map_name();
    let file = map_file_of_name(name);
    assert(maps.insert(name, map_info).insert(name, map_info) =~= maps.insert(name, map_info));
    assert(files.insert(file).insert(file) =~= files.insert(file));
    lemma_content_fixed_by_files(files.insert(file), once, twice);
}

} // verus!
