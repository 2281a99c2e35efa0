//! The list of contacts.

use crate::storage::StoredContact;
use crate::text::{opt_str, opt_text, same};
use vstd::prelude::*;

verus! {

/// A contact in the list.
#[derive(Debug, Clone, PartialEq)]
pub struct Contact<T = String> {
    pub id: T,
    pub display_name: T,
    pub unread: u32,
    pub last_message: Option<T>,
}

pub type ContactView = Contact<Seq<char>>;

impl View for Contact<String> {
    type V = ContactView;

    open spec fn view(&self) -> ContactView {
        Contact {
            id: self.id@,
            display_name: self.display_name@,
            unread: self.unread,
            last_message: opt_text(self.last_message),
        }
    }
}

pub open spec fn contacts_of(v: Seq<Contact>) -> Seq<ContactView> {
    v.map_values(|c: Contact| c@)
}

/// A contact with nothing unread.
pub open spec fn fresh_contact(id: Seq<char>, display_name: Seq<char>) -> ContactView {
    Contact { id, display_name, unread: 0, last_message: None }
}

/// A contact with nothing unread.
pub fn new_contact(id: String, display_name: String) -> (r: Contact)
    ensures
        r@ == fresh_contact(id@, display_name@),
{
    Contact { id, display_name, unread: 0, last_message: None }
}

/// The stored contacts as a list, in their order.
pub fn contacts_from_store(stored: &Vec<StoredContact>) -> (r: Vec<Contact>)
    ensures
        contacts_of(r@) == stored@.map_values(
            |c: StoredContact| fresh_contact(c.user_id@, c.display_name@),
        ),
{
    let mut out: Vec<Contact> = Vec::new();
    let mut i: usize = 0;
    while i < stored.len()
        invariant
            i <= stored@.len(),
            out@.len() == i,
            forall|j: int|
                0 <= j < i ==> (#[trigger] out@[j])@ == fresh_contact(
                    stored@[j].user_id@,
                    stored@[j].display_name@,
                ),
        decreases stored@.len() - i,
    {
        out.push(new_contact(stored[i].user_id.clone(), stored[i].display_name.clone()));
        i = i + 1;
    }
    assert(contacts_of(out@) =~= stored@.map_values(
        |c: StoredContact| fresh_contact(c.user_id@, c.display_name@),
    ));
    out
}

/// The place of the first contact with an id, from a place on; the length when there is none.
pub open spec fn place_from(contacts: Seq<ContactView>, id: Seq<char>, from: int) -> int
    decreases contacts.len() - from,
{
    if from >= contacts.len() || contacts[from].id == id {
        from
    } else {
        place_from(contacts, id, from + 1)
    }
}

/// The place of the first contact with an id.
pub open spec fn place_of(contacts: Seq<ContactView>, id: Seq<char>) -> Option<int> {
    if place_from(contacts, id, 0) < contacts.len() {
        Some(place_from(contacts, id, 0))
    } else {
        None
    }
}

/// The name of the first contact with an id.
pub open spec fn name_of(contacts: Seq<ContactView>, id: Seq<char>) -> Option<Seq<char>> {
    match place_of(contacts, id) {
        Some(i) => Some(contacts[i].display_name),
        None => None,
    }
}

/// The place that `place_of` finds holds the id, and no place before it does; where it finds
/// none, no place does.
pub proof fn law_first_place(contacts: Seq<ContactView>, id: Seq<char>)
    ensures
        match place_of(contacts, id) {
            Some(i) => {
                &&& 0 <= i < contacts.len()
                &&& contacts[i].id == id
                &&& forall|j: int| 0 <= j < i ==> (#[trigger] contacts[j]).id != id
            },
            None => forall|j: int| 0 <= j < contacts.len() ==> (#[trigger] contacts[j]).id != id,
        },
{
    lemma_place_from(contacts, id, 0);
}

proof fn lemma_place_from(contacts: Seq<ContactView>, id: Seq<char>, from: int)
    requires
        0 <= from <= contacts.len(),
    ensures
        from <= place_from(contacts, id, from) <= contacts.len(),
        place_from(contacts, id, from) < contacts.len() ==> contacts[place_from(
            contacts,
            id,
            from,
        )].id == id,
        forall|j: int|
            from <= j < place_from(contacts, id, from) ==> (#[trigger] contacts[j]).id != id,
    decreases contacts.len() - from,
{
    if from < contacts.len() && contacts[from].id != id {
        lemma_place_from(contacts, id, from + 1);
    }
}

/// The first place, from one on, that holds an id; the length when there is none.
fn scan(contacts: &[Contact], id: &str, from: usize) -> (r: usize)
    requires
        from <= contacts@.len(),
    ensures
        r == place_from(contacts_of(contacts@), id@, from as int),
        from <= r <= contacts@.len(),
{
    let mut i: usize = from;
    while i < contacts.len()
        invariant
            from <= i <= contacts@.len(),
            place_from(contacts_of(contacts@), id@, from as int) == place_from(
                contacts_of(contacts@),
                id@,
                i as int,
            ),
        decreases contacts@.len() - i,
    {
        assert(contacts_of(contacts@)[i as int] == contacts@[i as int]@);
        if same(contacts[i].id.as_str(), id) {
            return i;
        }
        i = i + 1;
    }
    i
}

/// The place of the first contact with an id.
pub fn position(contacts: &[Contact], id: &str) -> (r: Option<usize>)
    ensures
        match r {
            Some(i) => place_of(contacts_of(contacts@), id@) == Some(i as int),
            None => place_of(contacts_of(contacts@), id@) is None,
        },
        r matches Some(i) ==> i < contacts@.len(),
{
    let i: usize = scan(contacts, id, 0);
    if i < contacts.len() {
        Some(i)
    } else {
        None
    }
}

/// Whether a contact after a place has an id.
pub(crate) fn occurs_after(contacts: &[Contact], id: &str, place: usize) -> (r: bool)
    requires
        place < contacts@.len(),
    ensures
        r == exists|j: int|
            place < j < contacts@.len() && (#[trigger] contacts_of(contacts@)[j]).id == id@,
{
    proof {
        lemma_place_from(contacts_of(contacts@), id@, place + 1);
    }
    let n: usize = contacts.len();
    scan(contacts, id, place + 1) < n
}

/// The name of the first contact with an id.
pub fn contact_name<'a>(contacts: &'a [Contact], id: &str) -> (r: Option<&'a str>)
    ensures
        opt_str(r) == name_of(contacts_of(contacts@), id@),
{
    match position(contacts, id) {
        Some(i) => {
            assert(contacts_of(contacts@)[i as int] == contacts@[i as int]@);
            Some(contacts[i].display_name.as_str())
        },
        None => None,
    }
}

} // verus!
