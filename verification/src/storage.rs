//! The local store: named secrets, and how far the message stream was read.

use vstd::hash_map::StringHashMap;
use vstd::prelude::*;
use vstd::slice::slice_to_vec;

verus! {

/// A message as it is kept.
#[derive(Debug, Clone)]
pub struct StoredMessage<T = String> {
    pub id: T,
    pub peer_id: T,
    pub text: T,
    pub direction: T,
    pub timestamp_ms: i64,
    pub delivery_status: T,
}

impl View for StoredMessage<String> {
    type V = StoredMessage<Seq<char>>;

    open spec fn view(&self) -> StoredMessage<Seq<char>> {
        StoredMessage {
            id: self.id@,
            peer_id: self.peer_id@,
            text: self.text@,
            direction: self.direction@,
            timestamp_ms: self.timestamp_ms,
            delivery_status: self.delivery_status@,
        }
    }
}

/// A contact as it is kept.
#[derive(Debug, Clone)]
pub struct StoredContact<T = String> {
    pub user_id: T,
    pub display_name: T,
    pub identity_key_b64: T,
}

impl View for StoredContact<String> {
    type V = StoredContact<Seq<char>>;

    open spec fn view(&self) -> StoredContact<Seq<char>> {
        StoredContact {
            user_id: self.user_id@,
            display_name: self.display_name@,
            identity_key_b64: self.identity_key_b64@,
        }
    }
}

/// A store in memory.
pub struct Storage {
    secure: StringHashMap<Vec<u8>>,
    cursor: Option<String>,
}

#[verifier::ext_equal]
pub struct StorageView {
    pub secure: Map<Seq<char>, Seq<u8>>,
    pub cursor: Option<Seq<char>>,
}

impl View for Storage {
    type V = StorageView;

    closed spec fn view(&self) -> StorageView {
        StorageView {
            secure: self.secure@.map_values(|v: Vec<u8>| v@),
            cursor: crate::text::opt_text(self.cursor),
        }
    }
}

/// What saving does to the secrets.
pub open spec fn saved(s: StorageView, key: Seq<char>, data: Seq<u8>) -> StorageView {
    StorageView { secure: s.secure.insert(key, data), ..s }
}

/// What deleting does to the secrets.
pub open spec fn deleted(s: StorageView, key: Seq<char>) -> StorageView {
    StorageView { secure: s.secure.remove(key), ..s }
}

/// Saving nothing deletes.
pub open spec fn saved_or_deleted(s: StorageView, key: Seq<char>, data: Seq<u8>) -> StorageView {
    if data.len() == 0 {
        deleted(s, key)
    } else {
        saved(s, key, data)
    }
}

impl Storage {
    /// An empty store.
    pub fn open_in_memory() -> (r: Self)
        ensures
            r@ == (StorageView { secure: Map::empty(), cursor: None }),
    {
        let r = Storage { secure: StringHashMap::new(), cursor: None };
        assert(r@.secure =~= Map::<Seq<char>, Seq<u8>>::empty());
        r
    }

    pub fn secure_save(&mut self, key: &str, data: &[u8])
        ensures
            final(self)@ == saved(old(self)@, key@, data@),
    {
        self.secure.insert(key.to_string(), slice_to_vec(data));
        assert(self@.secure =~= old(self)@.secure.insert(key@, data@));
    }

    pub fn secure_delete(&mut self, key: &str)
        ensures
            final(self)@ == deleted(old(self)@, key@),
    {
        self.secure.remove(key);
        assert(self@.secure =~= old(self)@.secure.remove(key@));
    }

    pub fn secure_save_or_delete(&mut self, key: &str, data: &[u8])
        ensures
            final(self)@ == saved_or_deleted(old(self)@, key@, data@),
    {
        if data.len() == 0 {
            self.secure_delete(key);
        } else {
            self.secure_save(key, data);
        }
    }

    pub fn secure_load(&self, key: &str) -> (r: Option<Vec<u8>>)
        ensures
            match r {
                Some(v) => self@.secure.contains_key(key@) && v@ == self@.secure[key@],
                None => !self@.secure.contains_key(key@),
            },
    {
        match self.secure.get(key) {
            Some(v) => Some(slice_to_vec(v.as_slice())),
            None => None,
        }
    }

    /// Keeps how far the stream was read; whether that worked.
    pub fn save_stream_cursor(&mut self, cursor: &str) -> (r: bool)
        ensures
            r,
            final(self)@ == (StorageView { cursor: Some(cursor@), ..old(self)@ }),
    {
        self.cursor = Some(cursor.to_string());
        true
    }

    pub fn load_stream_cursor(&self) -> (r: Option<String>)
        ensures
            crate::text::opt_text(r) == self@.cursor,
    {
        match &self.cursor {
            Some(c) => Some(c.clone()),
            None => None,
        }
    }

    pub fn clear_stream_cursor(&mut self)
        ensures
            final(self)@ == (StorageView { cursor: None, ..old(self)@ }),
    {
        self.cursor = None;
    }
}

/// What was saved under a key is what is there, until something else is saved under that key
/// or it is deleted; other keys do not matter.
pub proof fn law_secrets_are_independent(
    s: StorageView,
    key: Seq<char>,
    data: Seq<u8>,
    other: Seq<char>,
)
    ensures
        saved(s, key, data).secure[key] == data,
        saved(s, key, data).secure.contains_key(key),
        !deleted(s, key).secure.contains_key(key),
        other != key ==> {
            &&& saved(s, key, data).secure.contains_key(other) == s.secure.contains_key(other)
            &&& saved(s, key, data).secure[other] == s.secure[other]
            &&& deleted(s, key).secure.contains_key(other) == s.secure.contains_key(other)
            &&& deleted(s, key).secure[other] == s.secure[other]
        },
        saved(s, key, data).cursor == s.cursor,
        deleted(s, key).cursor == s.cursor,
{
}

} // verus!
