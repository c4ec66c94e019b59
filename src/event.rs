use vstd::prelude::*;
use crate::models::{AppState, Pet, PetKind, has_id};

verus! {

/// The messages between the interactive side and the background worker.
/// `GetPetImage`, `GetPetFromDB`, `InsertPetToDB` and `DeletePetFromDB` are
/// commands for the worker; `SetPets`, `SetPetImage` and `SetSelectedPet` are
/// its results, applied to the [`AppState`].
#[derive(Debug, Clone, PartialEq)]
pub enum Event {
    SetPets(Vec<Pet>),
    GetPetImage(PetKind),
    SetPetImage(Option<String>),
    GetPetFromDB(i64),
    SetSelectedPet(Option<Pet>),
    InsertPetToDB(Pet),
    DeletePetFromDB(i64),
}

/// The state after one result event: an image or a selection replaces the old
/// one; a new list replaces the old one, and clears the selection first when the
/// list no longer holds the selected id. Commands leave the state as it is.
pub open spec fn reconciled(s: AppState, e: Event) -> AppState {
    match e {
        Event::SetPetImage(img) => AppState { pet_image: img, ..s },
        Event::SetSelectedPet(p) => AppState { selected_pet: p, ..s },
        Event::SetPets(pets) => AppState {
            selected_pet: match s.selected_pet {
                Some(sel) => if has_id(pets@, sel.id) { Some(sel) } else { None },
                None => None,
            },
            pets,
            ..s
        },
        _ => s,
    }
}

/// The state after the events of `es`, in order.
pub open spec fn reconciled_all(s: AppState, es: Seq<Event>) -> AppState
    decreases es.len(),
{
    if es.len() == 0 {
        s
    } else {
        reconciled(reconciled_all(s, es.drop_last()), es.last())
    }
}

/// Whether some pet of `pets` has the id `id`.
pub fn contains_id(pets: &Vec<Pet>, id: i64) -> (r: bool)
    ensures
        r == has_id(pets@, id),
{
    let mut i: usize = 0;
    while i < pets.len()
        invariant
            i <= pets@.len(),
            forall|k: int| 0 <= k < i ==> pets@[k].id != id,
        decreases pets@.len() - i,
    {
        if pets[i].id == id {
            return true;
        }
        i = i + 1;
    }
    false
}

impl AppState {
    /// The state at startup: the stored pets, no selection, no image, and an
    /// empty hidden form.
    pub fn new(pets: Vec<Pet>) -> (r: AppState)
        ensures
            r.pets == pets,
            r.selected_pet is None,
            r.pet_image is None,
            !r.add_form.show,
            r.add_form.name@.len() == 0,
            r.add_form.age@.len() == 0,
            r.add_form.kind@.len() == 0,
    {
        AppState { selected_pet: None, pets, pet_image: None, add_form: crate::models::AddForm::new() }
    }

    /// The state at startup, seeded from the pets in `con`.
    pub fn load(con: &sqlite::Connection) -> (r: Result<AppState, crate::db::StoreError>)
        ensures
            r matches Ok(st) ==> st.selected_pet is None && st.pet_image is None && !st.add_form.show
                && st.add_form.name@.len() == 0 && st.add_form.age@.len() == 0
                && st.add_form.kind@.len() == 0,
            r matches Err(e) ==> e is Query,
    {
        match crate::db::get_pets_from_db(con) {
            Ok(pets) => Ok(AppState::new(pets)),
            Err(e) => Err(e),
        }
    }

    /// Applies one event from the background worker.
    pub fn apply_event(&mut self, e: Event)
        ensures
            *final(self) == reconciled(*old(self), e),
    {
        match e {
            Event::SetPetImage(img) => {
                self.pet_image = img;
            },
            Event::SetSelectedPet(p) => {
                self.selected_pet = p;
            },
            Event::SetPets(pets) => {
                let keep = match &self.selected_pet {
                    Some(sel) => contains_id(&pets, sel.id),
                    None => false,
                };
                if !keep {
                    self.selected_pet = None;
                }
                self.pets = pets;
            },
            _ => {},
        }
    }

    /// Applies, in order, the events that the background worker has queued.
    pub fn apply_events(&mut self, events: Vec<Event>)
        ensures
            *final(self) == reconciled_all(*old(self), events@),
    {
        let ghost start = *self;
        let ghost all = events@;
        let mut rest = events;
        let ghost mut done: int = 0;
        while rest.len() > 0
            invariant
                0 <= done <= all.len(),
                rest@ == all.subrange(done, all.len() as int),
                *self == reconciled_all(start, all.take(done)),
            decreases rest@.len(),
        {
            let e = rest.remove(0);
            assert(all.take(done + 1).drop_last() =~= all.take(done));
            assert(all.take(done + 1).last() == e);
            self.apply_event(e);
            proof {
                done = done + 1;
            }
            assert(rest@ =~= all.subrange(done, all.len() as int));
        }
        assert(all.take(done) =~= all);
    }
}

} // verus!
