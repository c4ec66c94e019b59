use petapp::dispatch::{cat_image_url, create_outcome, delete_outcome, dog_image_url, image_endpoint, image_outcome, load_outcome, CAT_IMAGE_URL, DOG_IMAGE_URL};
use petapp::event::Event;
use petapp::form::{delete_command, kind_of_form, parse_i64, select_commands};
use petapp::models::{str_eq, AddForm, AppState, CatJson, CatJsonInner, DogJSON, Pet, PetKind};

fn pet(id: i64, name: &str, age: i64, kind: &str) -> Pet {
    Pet { id, name: name.to_string(), age, kind: PetKind(kind.to_string()) }
}

fn form(name: &str, age: &str, kind: &str) -> AddForm {
    AddForm { show: true, name: name.to_string(), age: age.to_string(), kind: kind.to_string() }
}

#[test]
fn dog_answer_gives_message_url() {
    let body: serde_json::Value = serde_json::from_str(r#"{"message":"http://x/img.png"}"#).unwrap();
    let answer = DogJSON { message: body["message"].as_str().unwrap().to_string() };
    let event = image_outcome(Some(dog_image_url(answer)));
    assert_eq!(event, Event::SetPetImage(Some("http://x/img.png".to_string())));
    assert_eq!(image_endpoint(&PetKind::dog()), DOG_IMAGE_URL);
}

#[test]
fn cat_answer_gives_first_url() {
    let body: serde_json::Value = serde_json::from_str(r#"[{"url":"http://y/img.png"}]"#).unwrap();
    let answer = CatJson { item: CatJsonInner { url: body[0]["url"].as_str().unwrap().to_string() } };
    let event = image_outcome(Some(cat_image_url(answer)));
    assert_eq!(event, Event::SetPetImage(Some("http://y/img.png".to_string())));
    assert_eq!(image_endpoint(&PetKind::cat()), CAT_IMAGE_URL);
    assert_eq!(image_endpoint(&PetKind("hamster".to_string())), CAT_IMAGE_URL);
}

#[test]
fn failed_fetch_clears_image() {
    let mut state = AppState::new(vec![]);
    state.apply_event(Event::SetPetImage(Some("u".to_string())));
    assert_eq!(state.pet_image, Some("u".to_string()));
    state.apply_event(image_outcome(None));
    assert_eq!(state.pet_image, None);
}

#[test]
fn new_list_without_selected_clears_it() {
    let mut state = AppState::new(vec![pet(1, "Rex", 3, "dog"), pet(2, "Tom", 2, "cat")]);
    state.apply_event(Event::SetSelectedPet(Some(pet(2, "Tom", 2, "cat"))));
    state.apply_event(Event::SetPets(vec![pet(1, "Rex", 3, "dog"), pet(2, "Tim", 4, "cat")]));
    assert_eq!(state.selected_pet, Some(pet(2, "Tom", 2, "cat")));
    state.apply_event(Event::SetPets(vec![pet(1, "Rex", 3, "dog")]));
    assert_eq!(state.selected_pet, None);
    assert_eq!(state.pets, vec![pet(1, "Rex", 3, "dog")]);
}

#[test]
fn commands_leave_state_unchanged() {
    let mut state = AppState::new(vec![pet(1, "Rex", 3, "dog")]);
    state.apply_events(vec![Event::GetPetFromDB(1), Event::DeletePetFromDB(1), Event::GetPetImage(PetKind::cat())]);
    assert_eq!(state.pets, vec![pet(1, "Rex", 3, "dog")]);
    assert_eq!(state.selected_pet, None);
}

#[test]
fn events_apply_in_order() {
    let mut state = AppState::new(vec![]);
    state.apply_events(vec![
        Event::SetSelectedPet(Some(pet(1, "Rex", 3, "dog"))),
        Event::SetPets(vec![pet(2, "Tom", 2, "cat")]),
        Event::SetSelectedPet(Some(pet(2, "Tom", 2, "cat"))),
    ]);
    assert_eq!(state.selected_pet, Some(pet(2, "Tom", 2, "cat")));
    let mut other = AppState::new(vec![]);
    other.apply_events(vec![
        Event::SetPets(vec![pet(2, "Tom", 2, "cat")]),
        Event::SetSelectedPet(Some(pet(1, "Rex", 3, "dog"))),
    ]);
    assert_eq!(other.selected_pet, Some(pet(1, "Rex", 3, "dog")));
}

#[test]
fn outcomes_follow_the_table() {
    let rex = pet(1, "Rex", 3, "dog");
    assert_eq!(load_outcome(Some(rex.clone())), vec![Event::SetSelectedPet(Some(rex.clone()))]);
    assert!(load_outcome(None).is_empty());
    assert_eq!(
        create_outcome(Some(rex.clone()), Some(vec![rex.clone()])),
        vec![Event::SetPets(vec![rex.clone()]), Event::SetSelectedPet(Some(rex.clone()))]
    );
    assert!(create_outcome(Some(rex.clone()), None).is_empty());
    assert!(create_outcome(None, Some(vec![])).is_empty());
    assert_eq!(delete_outcome(true, Some(vec![])), vec![Event::SetPets(vec![])]);
    assert!(delete_outcome(false, Some(vec![rex])).is_empty());
    assert!(delete_outcome(true, None).is_empty());
}

#[test]
fn parses_integers_as_std_does() {
    for s in ["0", "7", "+7", "-7", "42", "007", "9223372036854775807", "-9223372036854775808",
              "9223372036854775808", "-9223372036854775809", "99999999999999999999999", "",
              "-", "+", "1a", " 1", "1 ", "--1", "+-1"] {
        assert_eq!(parse_i64(s), s.parse::<i64>().ok(), "{}", s);
    }
}

#[test]
fn valid_form_submits_and_clears() {
    let mut f = form("Rex", "3", "dog");
    let out = f.submit();
    assert_eq!(out, vec![Event::InsertPetToDB(pet(-1, "Rex", 3, "dog")), Event::GetPetImage(PetKind::dog())]);
    assert_eq!((f.name.as_str(), f.age.as_str(), f.kind.as_str(), f.show), ("", "", "", true));
}

#[test]
fn unknown_kind_submits_as_dog() {
    let mut f = form("Kit", "2", "parrot");
    assert_eq!(f.submit(), vec![Event::InsertPetToDB(pet(-1, "Kit", 2, "dog")), Event::GetPetImage(PetKind::dog())]);
    let mut g = form("Kit", "2", "cat");
    assert_eq!(g.submit()[1], Event::GetPetImage(PetKind::cat()));
    assert_eq!(kind_of_form("Cat"), PetKind::dog());
}

#[test]
fn invalid_form_sends_nothing() {
    for (name, age) in [("", "3"), ("Rex", "0"), ("Rex", "-2"), ("Rex", "three"), ("Rex", "")] {
        let mut f = form(name, age, "cat");
        assert!(f.submit().is_empty());
        assert_eq!((f.name.as_str(), f.age.as_str(), f.kind.as_str()), (name, age, "cat"));
    }
}

#[test]
fn toggle_flips_visibility() {
    let mut f = AddForm::new();
    assert!(!f.show);
    f.toggle();
    assert!(f.show);
    f.toggle();
    assert!(!f.show);
}

#[test]
fn picking_and_deleting_send_commands() {
    let tom = pet(4, "Tom", 2, "cat");
    assert_eq!(select_commands(&tom), vec![Event::GetPetFromDB(4), Event::GetPetImage(PetKind::cat())]);
    assert_eq!(delete_command(&tom), Event::DeletePetFromDB(4));
    assert!(PetKind::dog().is_dog());
    assert!(!PetKind::cat().is_dog());
    assert!(str_eq("abc", "abc"));
    assert!(!str_eq("abc", "abd"));
    assert!(!str_eq("ab", "abc"));
}
