use vstd::prelude::*;

verus! {

/// The category of a pet, kept as free text; only `"dog"` and `"cat"` are interpreted.
#[derive(Debug, Clone, PartialEq)]
pub struct PetKind(pub String);

/// One pet record. An `id` of `-1` marks a record not yet stored.
#[derive(Debug, Clone, PartialEq)]
pub struct Pet {
    pub id: i64,
    pub name: String,
    pub age: i64,
    pub kind: PetKind,
}

/// The transient add-form: whether it is shown, and its three text fields.
#[derive(Debug, Clone)]
pub struct AddForm {
    pub show: bool,
    pub name: String,
    pub age: String,
    pub kind: String,
}

/// The state that the presentation layer reads each tick.
#[derive(Debug, Clone)]
pub struct AppState {
    pub selected_pet: Option<Pet>,
    pub pets: Vec<Pet>,
    pub pet_image: Option<String>,
    pub add_form: AddForm,
}

/// The first element of the cat endpoint's answer.
#[derive(Debug)]
pub struct CatJsonInner {
    pub url: String,
}

/// The cat endpoint's answer: an array whose first element holds the url.
#[derive(Debug)]
pub struct CatJson {
    pub item: CatJsonInner,
}

/// The dog endpoint's answer: an object whose `message` is the url.
#[derive(Debug)]
pub struct DogJSON {
    pub message: String,
}

/// Whether some pet of `pets` has the id `id`.
pub open spec fn has_id(pets: Seq<Pet>, id: i64) -> bool {
    exists|i: int| 0 <= i < pets.len() && #[trigger] pets[i].id == id
}

/// No two pets of `pets` share an id.
pub open spec fn ids_unique(pets: Seq<Pet>) -> bool {
    forall|i: int, j: int|
        0 <= i < pets.len() && 0 <= j < pets.len() && i != j ==> #[trigger] pets[i].id != #[trigger] pets[j].id
}

impl PetKind {
    /// The kind `"dog"`.
    pub fn dog() -> (r: PetKind)
        ensures
            r.0@ == "dog"@,
    {
        PetKind(String::from_str("dog"))
    }

    /// The kind `"cat"`.
    pub fn cat() -> (r: PetKind)
        ensures
            r.0@ == "cat"@,
    {
        PetKind(String::from_str("cat"))
    }

    /// Whether the kind reads `"dog"`.
    pub fn is_dog(&self) -> (r: bool)
        ensures
            r == (self.0@ == "dog"@),
    {
        str_eq(self.0.as_str(), "dog")
    }
}

/// Character-by-character equality of two strings.
pub fn str_eq(a: &str, b: &str) -> (r: bool)
    ensures
        r == (a@ == b@),
{
    let n = a.unicode_len();
    if n != b.unicode_len() {
        return false;
    }
    let mut i: usize = 0;
    while i < n
        invariant
            n == a@.len(),
            n == b@.len(),
            i <= n,
            forall|k: int| 0 <= k < i ==> a@[k] == b@[k],
        decreases n - i,
    {
        if a.get_char(i) != b.get_char(i) {
            return false;
        }
        i = i + 1;
    }
    assert(a@ =~= b@);
    true
}

} // verus!
