use vstd::prelude::*;
use crate::event::Event;
use crate::models::{AddForm, Pet, PetKind};

verus! {

/// Whether every character of `s` is an ASCII digit.
pub open spec fn all_digits(s: Seq<char>) -> bool {
    forall|i: int| 0 <= i < s.len() ==> '0' <= #[trigger] s[i] <= '9'
}

/// The value of a run of decimal digits, most significant first.
pub open spec fn digits_value(s: Seq<char>) -> int
    decreases s.len(),
{
    if s.len() == 0 {
        0
    } else {
        digits_value(s.drop_last()) * 10 + (s.last() as int - '0' as int)
    }
}

/// A signed decimal integer as std reads one into an `i64`: an optional `+` or
/// `-`, then one or more digits, with a value that fits.
pub open spec fn parsed_i64(s: Seq<char>) -> Option<i64> {
    let v = if is_negative(s) { -digits_value(digits_of(s)) } else { digits_value(digits_of(s)) };
    if digits_of(s).len() > 0 && all_digits(digits_of(s)) && i64::MIN <= v <= i64::MAX {
        Some(v as i64)
    } else {
        None
    }
}

/// Whether a number's text starts with a minus sign.
pub open spec fn is_negative(s: Seq<char>) -> bool {
    s.len() > 0 && s[0] == '-'
}

/// A number's text without its sign.
pub open spec fn digits_of(s: Seq<char>) -> Seq<char> {
    if s.len() > 0 && (s[0] == '-' || s[0] == '+') { s.skip(1) } else { s }
}

/// The age typed in a form: its value, or `0` when it does not read as one.
pub open spec fn form_age(s: Seq<char>) -> i64 {
    match parsed_i64(s) {
        Some(v) => v,
        None => 0,
    }
}

/// The kind typed in a form: `"cat"` stays, anything else becomes `"dog"`.
pub open spec fn form_kind(s: Seq<char>) -> Seq<char> {
    if s == "cat"@ { "cat"@ } else { "dog"@ }
}

/// Whether a form holds a pet that may be created: a name and a positive age.
pub open spec fn form_valid(f: AddForm) -> bool {
    f.name@.len() > 0 && form_age(f.age@) > 0
}

proof fn lemma_digits_grow(s: Seq<char>, j: int)
    requires
        all_digits(s),
        0 <= j <= s.len(),
    ensures
        0 <= digits_value(s.take(j)) <= digits_value(s),
    decreases s.len() - j,
{
    if j < s.len() {
        lemma_digits_grow(s, j + 1);
        let t = s.take(j + 1);
        assert(t.drop_last() =~= s.take(j));
        assert(all_digits(s.take(j))) by {
            assert forall|i: int| 0 <= i < j implies '0' <= #[trigger] s.take(j)[i] <= '9' by {
                assert(s.take(j)[i] == s[i]);
            }
        }
        lemma_digits_nonneg(s.take(j));
        assert(t.last() == s[j]);
        assert('0' <= s[j] <= '9');
    } else {
        assert(s.take(j) =~= s);
        lemma_digits_nonneg(s);
    }
}

proof fn lemma_digits_nonneg(s: Seq<char>)
    requires
        all_digits(s),
    ensures
        digits_value(s) >= 0,
    decreases s.len(),
{
    if s.len() > 0 {
        lemma_digits_nonneg(s.drop_last());
    }
}

/// Reads `s` as std's `i64` parsing does.
pub fn parse_i64(s: &str) -> (r: Option<i64>)
    ensures
        r == parsed_i64(s@),
{
    let n = s.unicode_len();
    let mut start: usize = 0;
    let mut neg = false;
    if n > 0 {
        let c = s.get_char(0);
        if c == '-' {
            neg = true;
            start = 1;
        } else if c == '+' {
            start = 1;
        }
    }
    let ghost body = digits_of(s@);
    assert(neg == is_negative(s@));
    assert(body =~= s@.skip(start as int));
    if start >= n {
        return None;
    }
    let limit: i128 = 9223372036854775808;
    let mut acc: i128 = 0;
    let mut i: usize = start;
    while i < n
        invariant
            n == s@.len(),
            start <= i <= n,
            body == s@.skip(start as int),
            body == digits_of(s@),
            neg == is_negative(s@),
            all_digits(s@.subrange(start as int, i as int)),
            acc == digits_value(s@.subrange(start as int, i as int)),
            0 <= acc <= limit,
            limit == 9223372036854775808,
        decreases n - i,
    {
        let c = s.get_char(i);
        if c < '0' || c > '9' {
            assert(body[i - start] == c);
            assert(parsed_i64(s@) matches None);
            return None;
        }
        let ghost prev = s@.subrange(start as int, i as int);
        let ghost next = s@.subrange(start as int, i as int + 1);
        assert(next.drop_last() =~= prev);
        assert(next.last() == c);
        assert(all_digits(next)) by {
            assert forall|k: int| 0 <= k < next.len() implies '0' <= #[trigger] next[k] <= '9' by {
                if k < prev.len() {
                    assert(next[k] == prev[k]);
                }
            }
        }
        acc = acc * 10 + (c as u32 - '0' as u32) as i128;
        i = i + 1;
        if acc > limit {
            proof {
                assert(all_digits(next));
                if all_digits(body) {
                    assert(body.take(next.len() as int) =~= next);
                    lemma_digits_grow(body, next.len() as int);
                    assert(digits_value(body) > limit);
                }
                assert(parsed_i64(s@) matches None);
            }
            return None;
        }
    }
    assert(s@.subrange(start as int, n as int) =~= body);
    if neg {
        Some((0 - acc) as i64)
    } else if acc <= 9223372036854775807 {
        Some(acc as i64)
    } else {
        None
    }
}

/// The kind for the text typed in a form.
pub fn kind_of_form(s: &str) -> (r: PetKind)
    ensures
        r.0@ == form_kind(s@),
{
    if crate::models::str_eq(s, "cat") {
        PetKind::cat()
    } else {
        PetKind::dog()
    }
}

impl AddForm {
    /// An empty, hidden form.
    pub fn new() -> (r: AddForm)
        ensures
            !r.show,
            r.name@.len() == 0,
            r.age@.len() == 0,
            r.kind@.len() == 0,
    {
        AddForm { show: false, name: String::new(), age: String::new(), kind: String::new() }
    }

    /// Submits the form. When it holds a name and a positive age, the commands
    /// are to insert the pet (with the unset id `-1`) and to fetch an image of its
    /// kind, and the three fields are cleared; otherwise nothing is sent and the
    /// form stays as it is.
    pub fn submit(&mut self) -> (r: Vec<Event>)
        ensures
            form_valid(*old(self)) ==> r@.len() == 2 && (r@[0] matches Event::InsertPetToDB(p)
                && p.id == -1 && p.name@ == old(self).name@ && p.age == form_age(old(self).age@)
                && p.kind.0@ == form_kind(old(self).kind@)) && (r@[1] matches Event::GetPetImage(k)
                && k.0@ == form_kind(old(self).kind@)),
            form_valid(*old(self)) ==> final(self).name@.len() == 0 && final(self).age@.len() == 0
                && final(self).kind@.len() == 0 && final(self).show == old(self).show,
            !form_valid(*old(self)) ==> r@.len() == 0 && *final(self) == *old(self),
    {
        let age = match parse_i64(self.age.as_str()) {
            Some(v) => v,
            None => 0,
        };
        let name = self.name.clone();
        let mut r: Vec<Event> = Vec::new();
        if name.unicode_len() > 0 && age > 0 {
            let pet = Pet { id: -1, name, age, kind: kind_of_form(self.kind.as_str()) };
            let kind = kind_of_form(self.kind.as_str());
            r.push(Event::InsertPetToDB(pet));
            r.push(Event::GetPetImage(kind));
            self.name = String::new();
            self.age = String::new();
            self.kind = String::new();
        }
        r
    }

    /// Shows a hidden form, hides a shown one.
    pub fn toggle(&mut self)
        ensures
            final(self).show == !old(self).show,
            final(self).name == old(self).name,
            final(self).age == old(self).age,
            final(self).kind == old(self).kind,
    {
        self.show = !self.show;
    }
}

/// The commands when the user picks `pet` from the list: load it, and fetch an
/// image of its kind.
pub fn select_commands(pet: &Pet) -> (r: Vec<Event>)
    ensures
        r@.len() == 2,
        r@[0] == Event::GetPetFromDB(pet.id),
        r@[1] matches Event::GetPetImage(k) && k.0@ == pet.kind.0@,
{
    let mut r: Vec<Event> = Vec::new();
    r.push(Event::GetPetFromDB(pet.id));
    r.push(Event::GetPetImage(PetKind(pet.kind.0.clone())));
    r
}

/// The command when the user deletes `pet`.
pub fn delete_command(pet: &Pet) -> (r: Event)
    ensures
        r == Event::DeletePetFromDB(pet.id),
{
    Event::DeletePetFromDB(pet.id)
}

} // verus!
