//! Which buildings the player has selected, and how clicks change that.
use vstd::prelude::*;

use bevy::platform::collections::HashSet;

use crate::collections::{
    id_set, id_set_clear, id_set_contains, id_set_elements, id_set_insert, id_set_new, id_set_remove,
};

verus! {

/// How a click or a selection rectangle changes the selection.
#[derive(Clone, Copy, Debug, PartialEq, Eq, Structural)]
pub enum BuildingSelectionKind {
    /// Only the clicked building is selected afterwards.
    SingleSelection,
    /// The building joins the selection.
    AddSelection,
    /// The building leaves the selection.
    RemoveSelection,
}

impl BuildingSelectionKind {
    /// The kind a click makes: holding control removes, else holding shift
    /// adds, else `base`.
    pub fn from_modifiers(base: BuildingSelectionKind, shift: bool, control: bool) -> (kind: BuildingSelectionKind)
        ensures
            kind == (if control {
                BuildingSelectionKind::RemoveSelection
            } else if shift {
                BuildingSelectionKind::AddSelection
            } else {
                base
            }),
    {
        let mut kind = base;
        if shift {
            kind = BuildingSelectionKind::AddSelection;
        }
        if control {
            kind = BuildingSelectionKind::RemoveSelection;
        }
        kind
    }

    /// How a selection rectangle applies a kind to each building it touches:
    /// whether the selection is cleared first, and the kind used for each
    /// building (a single selection becomes a cleared selection that adds).
    pub fn for_rectangle(self) -> (plan: (bool, BuildingSelectionKind))
        ensures
            plan == (match self {
                BuildingSelectionKind::SingleSelection => (true, BuildingSelectionKind::AddSelection),
                BuildingSelectionKind::AddSelection => (false, BuildingSelectionKind::AddSelection),
                BuildingSelectionKind::RemoveSelection => (false, BuildingSelectionKind::RemoveSelection),
            }),
    {
        match self {
            BuildingSelectionKind::SingleSelection => (true, BuildingSelectionKind::AddSelection),
            BuildingSelectionKind::AddSelection => (false, BuildingSelectionKind::AddSelection),
            BuildingSelectionKind::RemoveSelection => (false, BuildingSelectionKind::RemoveSelection),
        }
    }
}

/// The selected buildings (entities written as their 64-bit form).
pub struct SelectedBuildings {
    buildings: HashSet<u64>,
}

impl View for SelectedBuildings {
    type V = Set<u64>;

    closed spec fn view(&self) -> Set<u64> {
        id_set(self.buildings)
    }
}

/// What a selection change means for the markers drawn under buildings.
pub struct SelectionChanges {
    /// Buildings that lose their marker, each once.
    pub unmarked: Vec<u64>,
    /// The building that gets a marker, if any.
    pub marked: Option<u64>,
}

/// The selection after a click of some kind on `building`, where
/// `controllable` holds the buildings the human player owns: a single
/// selection keeps only the building; adding needs the whole selection and
/// the building to be the player's; removing drops the building.
pub open spec fn selection_after(
    selected: Set<u64>,
    building: u64,
    kind: BuildingSelectionKind,
    controllable: Set<u64>,
) -> Set<u64> {
    match kind {
        BuildingSelectionKind::SingleSelection => Set::empty().insert(building),
        BuildingSelectionKind::AddSelection => if selected.subset_of(controllable) && controllable.contains(building) {
            selected.insert(building)
        } else {
            selected
        },
        BuildingSelectionKind::RemoveSelection => selected.remove(building),
    }
}

/// Whether `ids` holds `id`.
fn holds(ids: &Vec<u64>, id: u64) -> (found: bool)
    ensures
        found == ids@.contains(id),
{
    for i in 0..ids.len()
        invariant
            forall|j: int| 0 <= j < i ==> ids@[j] != id,
    {
        if ids[i] == id {
            return true;
        }
    }
    false
}

impl SelectedBuildings {
    /// Nothing is selected.
    pub fn new() -> (selection: SelectedBuildings)
        ensures
            selection@ == Set::<u64>::empty(),
    {
        SelectedBuildings { buildings: id_set_new() }
    }

    /// The selected buildings, each once, in no stated order.
    pub fn buildings(&self) -> (buildings: Vec<u64>)
        ensures
            buildings@.no_duplicates(),
            buildings@.to_set() == self@,
    {
        id_set_elements(&self.buildings)
    }

    pub fn contains(&self, building: u64) -> (selected: bool)
        ensures
            selected == self@.contains(building),
    {
        id_set_contains(&self.buildings, building)
    }

    /// A building leaves the selection; returns whether it was selected (and
    /// so loses its marker).
    pub fn deselect(&mut self, building: u64) -> (was_selected: bool)
        ensures
            was_selected == old(self)@.contains(building),
            final(self)@ == old(self)@.remove(building),
    {
        if id_set_contains(&self.buildings, building) {
            id_set_remove(&mut self.buildings, building);
            true
        } else {
            proof {
                assert(id_set(self.buildings).remove(building) =~= id_set(self.buildings));
            }
            false
        }
    }

    /// Every building leaves the selection; returns those that were selected.
    pub fn deselect_all(&mut self) -> (deselected: Vec<u64>)
        ensures
            deselected@.no_duplicates(),
            deselected@.to_set() == old(self)@,
            final(self)@ == Set::<u64>::empty(),
    {
        let deselected = id_set_elements(&self.buildings);
        id_set_clear(&mut self.buildings);
        deselected
    }

    /// The selected buildings that a move order sends ants from: those owned
    /// by the human player (`controllable`), each once, in no stated order.
    pub fn order_sources(&self, controllable: &Vec<u64>) -> (sources: Vec<u64>)
        ensures
            sources@.no_duplicates(),
            sources@.to_set() == self@.intersect(controllable@.to_set()),
    {
        let selected = id_set_elements(&self.buildings);
        let mut sources: Vec<u64> = Vec::new();
        for i in 0..selected.len()
            invariant
                selected@.no_duplicates(),
                selected@.to_set() == self@,
                sources@.no_duplicates(),
                forall|x: u64| #[trigger] sources@.contains(x) <==> exists|j: int| 0 <= j < i && selected@[j] == x && controllable@.contains(x),
        {
            if holds(controllable, selected[i]) {
                proof {
                    assert(!sources@.contains(selected@[i as int])) by {
                        if sources@.contains(selected@[i as int]) {
                            let j = choose|j: int| 0 <= j < i && selected@[j] == selected@[i as int] && controllable@.contains(selected@[i as int]);
                        }
                    }
                }
                let ghost old_sources = sources@;
                sources.push(selected[i]);
                proof {
                    assert(sources@ == old_sources.push(selected@[i as int]));
                    assert forall|x: u64| #[trigger] sources@.contains(x) <==> exists|j: int| 0 <= j < i + 1 && selected@[j] == x && controllable@.contains(x) by {
                        if sources@.contains(x) {
                            let k = choose|k: int| 0 <= k < sources@.len() && sources@[k] == x;
                            if k < old_sources.len() {
                                assert(old_sources[k] == x);
                                assert(old_sources.contains(x));
                            } else {
                                assert(x == selected@[i as int]);
                            }
                        }
                        if exists|j: int| 0 <= j < i + 1 && selected@[j] == x && controllable@.contains(x) {
                            let j = choose|j: int| 0 <= j < i + 1 && selected@[j] == x && controllable@.contains(x);
                            if j < i {
                                assert(old_sources.contains(x));
                                let k = choose|k: int| 0 <= k < old_sources.len() && old_sources[k] == x;
                                assert(sources@[k] == x);
                            } else {
                                assert(sources@[sources@.len() - 1] == x);
                            }
                        }
                    }
                }
            } else {
                proof {
                    assert forall|x: u64| #[trigger] sources@.contains(x) <==> exists|j: int| 0 <= j < i + 1 && selected@[j] == x && controllable@.contains(x) by {
                        if exists|j: int| 0 <= j < i + 1 && selected@[j] == x && controllable@.contains(x) {
                            let j = choose|j: int| 0 <= j < i + 1 && selected@[j] == x && controllable@.contains(x);
                            if j == i {
                                assert(false);
                            }
                        }
                    }
                }
            }
        }
        proof {
            assert forall|x: u64| sources@.to_set().contains(x) <==> self@.intersect(controllable@.to_set()).contains(x) by {
                if sources@.to_set().contains(x) {
                    assert(sources@.contains(x));
                    let j = choose|j: int| 0 <= j < selected@.len() && selected@[j] == x && controllable@.contains(x);
                    assert(selected@.to_set().contains(x));
                }
                if self@.intersect(controllable@.to_set()).contains(x) {
                    assert(selected@.to_set().contains(x));
                    let j = choose|j: int| 0 <= j < selected@.len() && selected@[j] == x;
                    assert(controllable@.contains(x));
                    assert(sources@.contains(x));
                }
            }
            assert(sources@.to_set() =~= self@.intersect(controllable@.to_set()));
        }
        sources
    }

    /// Applies a click of some kind on `building`; `controllable` lists the
    /// buildings owned by the human player.
    pub fn select(&mut self, building: u64, kind: BuildingSelectionKind, controllable: &Vec<u64>) -> (changes: SelectionChanges)
        ensures
            final(self)@ == selection_after(old(self)@, building, kind, controllable@.to_set()),
            changes.unmarked@.no_duplicates(),
            changes.unmarked@.to_set() == (match kind {
                BuildingSelectionKind::SingleSelection => old(self)@,
                BuildingSelectionKind::AddSelection => Set::<u64>::empty(),
                BuildingSelectionKind::RemoveSelection => old(self)@.intersect(Set::empty().insert(building)),
            }),
            changes.marked == (match kind {
                BuildingSelectionKind::SingleSelection => Some(building),
                BuildingSelectionKind::AddSelection => if old(self)@.subset_of(controllable@.to_set())
                    && controllable@.contains(building) {
                    Some(building)
                } else {
                    None::<u64>
                },
                BuildingSelectionKind::RemoveSelection => None::<u64>,
            }),
    {
        match kind {
            BuildingSelectionKind::SingleSelection => {
                let unmarked = id_set_elements(&self.buildings);
                id_set_clear(&mut self.buildings);
                id_set_insert(&mut self.buildings, building);
                proof {
                    assert(id_set(self.buildings) =~= Set::empty().insert(building));
                }
                SelectionChanges { unmarked, marked: Some(building) }
            },
            BuildingSelectionKind::AddSelection => {
                let current = id_set_elements(&self.buildings);
                let mut all_controllable = true;
                let mut i: usize = 0;
                while i < current.len()
                    invariant
                        i <= current@.len(),
                        all_controllable == forall|j: int| 0 <= j < i ==> controllable@.contains(#[trigger] current@[j]),
                    decreases current@.len() - i,
                {
                    if !holds(controllable, current[i]) {
                        all_controllable = false;
                    }
                    i = i + 1;
                }
                proof {
                    if all_controllable {
                        assert forall|id: u64| old(self)@.contains(id) implies controllable@.to_set().contains(id) by {
                            assert(current@.to_set().contains(id));
                            let j = choose|j: int| 0 <= j < current@.len() && current@[j] == id;
                            assert(controllable@.contains(current@[j]));
                        }
                    } else {
                        let j = choose|j: int| 0 <= j < current@.len() && !controllable@.contains(#[trigger] current@[j]);
                        assert(current@.to_set().contains(current@[j]));
                        assert(!controllable@.to_set().contains(current@[j]));
                    }
                    assert(controllable@.to_set().contains(building) == controllable@.contains(building));
                }
                let empty: Vec<u64> = Vec::new();
                proof {
                    assert(empty@.to_set() =~= Set::<u64>::empty());
                }
                if all_controllable && holds(controllable, building) {
                    id_set_insert(&mut self.buildings, building);
                    SelectionChanges { unmarked: empty, marked: Some(building) }
                } else {
                    SelectionChanges { unmarked: empty, marked: None }
                }
            },
            BuildingSelectionKind::RemoveSelection => {
                let was_selected = self.deselect(building);
                let mut unmarked: Vec<u64> = Vec::new();
                if was_selected {
                    unmarked.push(building);
                }
                proof {
                    if was_selected {
                        assert(unmarked@ =~= seq![building]);
                        assert(unmarked@.to_set() =~= old(self)@.intersect(Set::empty().insert(building))) by {
                            assert(unmarked@[0] == building);
                            assert(unmarked@.to_set().contains(building));
                            assert forall|x: u64| unmarked@.to_set().contains(x) implies x == building by {
                                let j = choose|j: int| 0 <= j < unmarked@.len() && unmarked@[j] == x;
                            }
                        }
                    } else {
                        assert(unmarked@.to_set() =~= old(self)@.intersect(Set::empty().insert(building)));
                    }
                }
                SelectionChanges { unmarked, marked: None }
            },
        }
    }
}

/// A selection either holds only buildings of the human player, or a single
/// building (which a plain click may pick whoever owns it).
pub open spec fn selection_consistent(selected: Set<u64>, controllable: Set<u64>) -> bool {
    selected.finite() && (selected.subset_of(controllable) || selected.len() <= 1)
}

/// Every kind of click keeps a selection consistent: a group of several
/// buildings never mixes in one the player does not own.
pub proof fn lemma_selection_stays_consistent(
    selected: Set<u64>,
    building: u64,
    kind: BuildingSelectionKind,
    controllable: Set<u64>,
)
    requires
        selection_consistent(selected, controllable),
    ensures
        selection_consistent(selection_after(selected, building, kind, controllable), controllable),
{
    let after = selection_after(selected, building, kind, controllable);
    match kind {
        BuildingSelectionKind::SingleSelection => {
            assert(after.len() == 1);
        },
        BuildingSelectionKind::AddSelection => {},
        BuildingSelectionKind::RemoveSelection => {
            if !selected.subset_of(controllable) {
                if selected.contains(building) {
                    assert(after.len() == selected.len() - 1);
                } else {
                    assert(after =~= selected);
                }
            }
        },
    }
}

/// What each kind of click does to the selection, for every selection and
/// building: a single click leaves exactly the clicked building selected;
/// adding never drops a selected building, selects the building whenever the
/// whole selection and the building are the player's, and selects nothing
/// else; removing drops the building and keeps every other one.
pub proof fn lemma_click_kinds(selected: Set<u64>, building: u64, controllable: Set<u64>)
    ensures
        selection_after(selected, building, BuildingSelectionKind::SingleSelection, controllable).contains(building),
        forall|other: u64| other != building
            ==> !selection_after(selected, building, BuildingSelectionKind::SingleSelection, controllable).contains(other),
        selected.subset_of(selection_after(selected, building, BuildingSelectionKind::AddSelection, controllable)),
        selected.subset_of(controllable) && controllable.contains(building)
            ==> selection_after(selected, building, BuildingSelectionKind::AddSelection, controllable).contains(building),
        selection_after(selected, building, BuildingSelectionKind::AddSelection, controllable).subset_of(selected.insert(building)),
        !selection_after(selected, building, BuildingSelectionKind::RemoveSelection, controllable).contains(building),
        forall|other: u64| other != building ==> (
            selection_after(selected, building, BuildingSelectionKind::RemoveSelection, controllable).contains(other)
                == selected.contains(other)),
{
}

} // verus!
