use vstd::prelude::*;
use crate::db::delete_done;
use crate::dispatch::{create_events, delete_events, load_events};
use crate::event::{Event, reconciled, reconciled_all};
use crate::models::{AppState, Pet, has_id};

verus! {

proof fn lemma_one(s: AppState, a: Event)
    ensures
        reconciled_all(s, seq![a]) == crate::event::reconciled(s, a),
{
    assert(seq![a].drop_last() =~= Seq::<Event>::empty());
    assert(reconciled_all(s, Seq::<Event>::empty()) == s);
    assert(seq![a].last() == a);
}

proof fn lemma_two(s: AppState, a: Event, b: Event)
    ensures
        reconciled_all(s, seq![a, b]) == crate::event::reconciled(crate::event::reconciled(s, a), b),
{
    assert(seq![a, b].drop_last() =~= seq![a]);
    assert(seq![a, b].last() == b);
    lemma_one(s, a);
}

/// After a successful insert and relisting, the state shows exactly the list
/// that the store gave, the inserted pet is selected, and the shown ids are
/// unique when the store's are.
pub proof fn lemma_create_shows_listed(s: AppState, inserted: Pet, listed: Vec<Pet>)
    ensures
        reconciled_all(s, create_events(Some(inserted), Some(listed))).pets == listed,
        reconciled_all(s, create_events(Some(inserted), Some(listed))).selected_pet == Some(inserted),
        crate::models::ids_unique(listed@) ==> crate::models::ids_unique(
            reconciled_all(s, create_events(Some(inserted), Some(listed))).pets@),
{
    lemma_two(s, Event::SetPets(listed), Event::SetSelectedPet(Some(inserted)));
}

proof fn lemma_concat(s: AppState, a: Seq<Event>, b: Seq<Event>)
    ensures
        reconciled_all(s, a + b) == reconciled_all(reconciled_all(s, a), b),
    decreases b.len(),
{
    if b.len() == 0 {
        assert(a + b =~= a);
    } else {
        lemma_concat(s, a, b.drop_last());
        assert((a + b).drop_last() =~= a + b.drop_last());
        assert((a + b).last() == b.last());
    }
}

/// The events of a run of successful inserts, each followed by its relisting.
pub open spec fn create_run(runs: Seq<(Pet, Vec<Pet>)>) -> Seq<Event>
    decreases runs.len(),
{
    if runs.len() == 0 {
        Seq::empty()
    } else {
        create_run(runs.drop_last()) + create_events(Some(runs.last().0), Some(runs.last().1))
    }
}

/// After any run of one or more successful inserts, the state shows exactly the
/// list of the last relisting, with the last inserted pet selected.
pub proof fn lemma_creates_show_last_list(s: AppState, runs: Seq<(Pet, Vec<Pet>)>)
    requires
        runs.len() > 0,
    ensures
        reconciled_all(s, create_run(runs)).pets == runs.last().1,
        reconciled_all(s, create_run(runs)).selected_pet == Some(runs.last().0),
{
    let prefix = create_run(runs.drop_last());
    lemma_concat(s, prefix, create_events(Some(runs.last().0), Some(runs.last().1)));
    lemma_create_shows_listed(reconciled_all(s, prefix), runs.last().0, runs.last().1);
}

/// A new list never leaves a selection whose id it does not hold: a selection
/// that survives it names a listed pet.
pub proof fn lemma_list_keeps_selection_valid(s: AppState, listed: Vec<Pet>)
    ensures
        reconciled(s, Event::SetPets(listed)).selected_pet matches Some(p) ==> has_id(listed@, p.id),
        s.selected_pet matches Some(p) ==> (has_id(listed@, p.id) ==> reconciled(
            s,
            Event::SetPets(listed),
        ).selected_pet == s.selected_pet),
{
}

/// Deleting the selected pet clears the selection, once the store's new list
/// no longer holds its id.
pub proof fn lemma_delete_selected_clears(s: AppState, id: i64, listed: Vec<Pet>)
    requires
        s.selected_pet matches Some(p) && p.id == id,
        !has_id(listed@, id),
    ensures
        reconciled_all(s, delete_events(true, Some(listed))).selected_pet is None,
{
    lemma_one(s, Event::SetPets(listed));
}

/// Deleting a pet that is not selected leaves the selection as it is, whether
/// the delete succeeded or not, as long as the store's new list still holds the
/// selected id.
pub proof fn lemma_delete_other_keeps(s: AppState, id: i64, deleted: bool, listed: Option<Vec<Pet>>)
    requires
        s.selected_pet matches Some(p) ==> p.id != id && (listed matches Some(l) ==> has_id(
            l@,
            p.id,
        )),
    ensures
        reconciled_all(s, delete_events(deleted, listed)).selected_pet == s.selected_pet,
{
    match listed {
        Some(l) => {
            if deleted {
                lemma_one(s, Event::SetPets(l));
            } else {
                assert(delete_events(deleted, listed) =~= Seq::<Event>::empty());
            }
        },
        None => {
            assert(delete_events(deleted, listed) =~= Seq::<Event>::empty());
        },
    }
}

/// A delete that changed no row emits no events, so the state stays as it is.
pub proof fn lemma_delete_missing_emits_nothing(s: AppState, row_returned: bool, listed: Option<Vec<Pet>>)
    ensures
        !delete_done(row_returned, 0),
        delete_events(delete_done(row_returned, 0), listed).len() == 0,
        reconciled_all(s, delete_events(delete_done(row_returned, 0), listed)) == s,
{
    assert(delete_events(false, listed) =~= Seq::<Event>::empty());
}

/// Loading a pet twice from an unchanged store, where both lookups find the
/// same answer, selects the same value the second time as the first.
pub proof fn lemma_load_twice(s: AppState, found: Option<Pet>, found_again: Option<Pet>)
    requires
        found_again == found,
    ensures
        reconciled_all(reconciled_all(s, load_events(found)), load_events(found_again)).selected_pet
            == reconciled_all(s, load_events(found)).selected_pet,
{
    match found {
        Some(p) => {
            lemma_one(s, Event::SetSelectedPet(Some(p)));
            lemma_one(reconciled_all(s, load_events(found)), Event::SetSelectedPet(Some(p)));
        },
        None => {
            assert(load_events(found) =~= Seq::<Event>::empty());
        },
    }
}

} // verus!
