use vstd::prelude::*;
use crate::db::{delete_pet_from_db, get_pet_from_db, get_pets_from_db, insert_pet_to_db};
use crate::event::Event;
use crate::models::{CatJson, DogJSON, Pet, PetKind};

verus! {

/// The image endpoint for dogs.
pub const DOG_IMAGE_URL: &'static str = "https://dog.ceo/api/breeds/image/random";

/// The image endpoint for every other kind.
pub const CAT_IMAGE_URL: &'static str = "https://api.thecatapi.com/v1/images/search";

/// What a lookup emits: the selection when a pet was found, nothing otherwise.
pub open spec fn load_events(found: Option<Pet>) -> Seq<Event> {
    match found {
        Some(p) => seq![Event::SetSelectedPet(Some(p))],
        None => seq![],
    }
}

/// What an insert emits: the fresh list, then the inserted pet as selection;
/// nothing when the insert or the listing failed.
pub open spec fn create_events(inserted: Option<Pet>, listed: Option<Vec<Pet>>) -> Seq<Event> {
    match (inserted, listed) {
        (Some(p), Some(l)) => seq![Event::SetPets(l), Event::SetSelectedPet(Some(p))],
        _ => seq![],
    }
}

/// What a delete emits: the fresh list; nothing when the delete or the
/// listing failed.
pub open spec fn delete_events(deleted: bool, listed: Option<Vec<Pet>>) -> Seq<Event> {
    match listed {
        Some(l) => if deleted { seq![Event::SetPets(l)] } else { seq![] },
        None => seq![],
    }
}

/// The events for the result of a lookup.
pub fn load_outcome(found: Option<Pet>) -> (r: Vec<Event>)
    ensures
        r@ == load_events(found),
{
    let mut r: Vec<Event> = Vec::new();
    if let Some(p) = found {
        r.push(Event::SetSelectedPet(Some(p)));
    }
    assert(r@ =~= load_events(found));
    r
}

/// The events for the results of an insert and of the listing after it.
pub fn create_outcome(inserted: Option<Pet>, listed: Option<Vec<Pet>>) -> (r: Vec<Event>)
    ensures
        r@ == create_events(inserted, listed),
{
    let mut r: Vec<Event> = Vec::new();
    match (inserted, listed) {
        (Some(p), Some(l)) => {
            r.push(Event::SetPets(l));
            r.push(Event::SetSelectedPet(Some(p)));
        },
        _ => {},
    }
    assert(r@ =~= create_events(inserted, listed));
    r
}

/// The events for the results of a delete and of the listing after it.
pub fn delete_outcome(deleted: bool, listed: Option<Vec<Pet>>) -> (r: Vec<Event>)
    ensures
        r@ == delete_events(deleted, listed),
{
    let mut r: Vec<Event> = Vec::new();
    if deleted {
        if let Some(l) = listed {
            r.push(Event::SetPets(l));
        }
    }
    assert(r@ =~= delete_events(deleted, listed));
    r
}

/// Handles one store command against `con` and returns the events to send
/// back, in order. The image command and the result events are not store work:
/// they give no events here.
pub fn handler_events(con: &sqlite::Connection, event: Event) -> (r: Vec<Event>)
    ensures
        event matches Event::GetPetFromDB(id) ==> exists|found: Option<Pet>|
            r@ == load_events(found) && (found matches Some(p) ==> p.id == id),
        event is InsertPetToDB ==> exists|ins: Option<Pet>, l: Option<Vec<Pet>>|
            r@ == create_events(ins, l),
        event is DeletePetFromDB ==> exists|del: bool, l: Option<Vec<Pet>>|
            r@ == delete_events(del, l),
        !(event is GetPetFromDB || event is InsertPetToDB || event is DeletePetFromDB) ==> r@.len() == 0,
{
    match event {
        Event::GetPetFromDB(pet_id) => {
            let found = match get_pet_from_db(con, pet_id) {
                Ok(f) => f,
                Err(_) => None,
            };
            load_outcome(found)
        },
        Event::InsertPetToDB(pet) => {
            match insert_pet_to_db(con, pet) {
                Ok(new_pet) => {
                    let listed = match get_pets_from_db(con) {
                        Ok(l) => Some(l),
                        Err(_) => None,
                    };
                    create_outcome(Some(new_pet), listed)
                },
                Err(_) => create_outcome(None, None),
            }
        },
        Event::DeletePetFromDB(pet_id) => {
            match delete_pet_from_db(con, pet_id) {
                Ok(()) => {
                    let listed = match get_pets_from_db(con) {
                        Ok(l) => Some(l),
                        Err(_) => None,
                    };
                    delete_outcome(true, listed)
                },
                Err(_) => delete_outcome(false, None),
            }
        },
        _ => Vec::new(),
    }
}

/// The endpoint to ask for an image of `kind`: the dog endpoint for `"dog"`,
/// the cat endpoint for anything else.
pub fn image_endpoint(kind: &PetKind) -> (r: &'static str)
    ensures
        r@ == if kind.0@ == "dog"@ { DOG_IMAGE_URL@ } else { CAT_IMAGE_URL@ },
{
    if kind.is_dog() {
        DOG_IMAGE_URL
    } else {
        CAT_IMAGE_URL
    }
}

/// The image url out of a dog answer.
pub fn dog_image_url(answer: DogJSON) -> (r: String)
    ensures
        r@ == answer.message@,
{
    answer.message
}

/// The image url out of a cat answer.
pub fn cat_image_url(answer: CatJson) -> (r: String)
    ensures
        r@ == answer.item.url@,
{
    answer.item.url
}

/// The event for a finished image fetch: the url, or `None` when the transport
/// or the answer's shape failed.
pub fn image_outcome(url: Option<String>) -> (r: Event)
    ensures
        r == Event::SetPetImage(url),
{
    Event::SetPetImage(url)
}

} // verus!
