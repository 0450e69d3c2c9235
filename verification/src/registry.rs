//! The sublevel registry: a constructed-once lookup from normalized
//! (lower-cased) sublevel identifiers to their floor parameters.
//!
//! The registry is an explicit object rather than process-global state: it
//! is populated exactly once through `ensure_init`, which is idempotent
//! (a second call changes nothing and reports that it did nothing), and is
//! read-only afterwards.  Serializing concurrent first access around the
//! single `ensure_init` call is the embedding program's duty; once it has
//! returned, lookups never mutate the registry, so shared references to it
//! may be used freely from many threads.

use vstd::prelude::*;

use crate::model::CaveInfoError;
use crate::model::FloorInfo;
use crate::model::FloorInfoModel;

verus! {

/// The ASCII-lowercased code point of a character: ASCII capital letters
/// map to their small forms, every other character is unchanged.
pub open spec fn ascii_lower_char(c: char) -> int {
    if 65 <= c as int <= 90 {
        c as int + 32
    } else {
        c as int
    }
}

/// Whether `key` is exactly the ASCII-lowercased form of `id`.
pub open spec fn lower_matches(id: Seq<char>, key: Seq<char>) -> bool {
    id.len() == key.len() && forall|i: int|
        0 <= i < id.len() ==> ascii_lower_char(id[i]) == #[trigger] key[i] as int
}

/// Whether a stored key is normalized: it contains no ASCII capital
/// letter, so it is its own ASCII-lowercased form.
pub open spec fn is_normalized(key: Seq<char>) -> bool {
    forall|i: int| 0 <= i < key.len() ==> !(65 <= #[trigger] key[i] as int <= 90)
}

/// Compares an identifier against a stored key: equal after ASCII
/// lowercasing of the identifier.
fn str_lower_matches(id: &str, key: &str) -> (r: bool)
    ensures
        r == lower_matches(id@, key@),
{
    let id_len = id.unicode_len();
    let key_len = key.unicode_len();
    if id_len != key_len {
        return false;
    }
    let mut i: usize = 0;
    while i < id_len
        invariant
            id_len == id@.len(),
            key_len == key@.len(),
            id_len == key_len,
            i <= id_len,
            forall|k: int| 0 <= k < i ==> ascii_lower_char(id@[k]) == #[trigger] key@[k] as int,
        decreases id_len - i,
    {
        let c = id.get_char(i) as u32;
        let d = key.get_char(i) as u32;
        let lowered = if c >= 65 && c <= 90 {
            c + 32
        } else {
            c
        };
        if lowered != d {
            return false;
        }
        i += 1;
    }
    true
}

/// Whether a key holds no ASCII capital letter.
fn str_is_normalized(key: &str) -> (r: bool)
    ensures
        r == is_normalized(key@),
{
    let key_len = key.unicode_len();
    let mut i: usize = 0;
    while i < key_len
        invariant
            key_len == key@.len(),
            i <= key_len,
            forall|k: int| 0 <= k < i ==> !(65 <= #[trigger] key@[k] as int <= 90),
        decreases key_len - i,
    {
        let c = key.get_char(i) as u32;
        if c >= 65 && c <= 90 {
            return false;
        }
        i += 1;
    }
    true
}

/// A constructed-once lookup from normalized sublevel identifiers to floor
/// parameters.
pub struct SublevelRegistry {
    /// Normalized identifier of each registered sublevel.
    pub names: Vec<String>,
    /// The floor parameters, one per entry of `names`.
    pub floors: Vec<FloorInfo>,
    /// Whether the one-time population has happened.
    pub initialized: bool,
}

impl SublevelRegistry {
    /// The registered identifiers.
    pub open spec fn keys(self) -> Seq<Seq<char>> {
        self.names.deep_view()
    }

    /// The registered floor parameters.
    pub open spec fn floor_models(self) -> Seq<FloorInfoModel> {
        self.floors.deep_view()
    }

    /// One entry per key, and every key normalized.
    pub open spec fn wf(self) -> bool {
        &&& self.keys().len() == self.floor_models().len()
        &&& forall|k: int| 0 <= k < self.keys().len() ==> is_normalized(#[trigger] self.keys()[k])
    }

    /// An empty, not yet populated registry.
    pub fn new() -> (r: SublevelRegistry)
        ensures
            !r.initialized,
            r.keys().len() == 0,
            r.floor_models().len() == 0,
            r.wf(),
    {
        SublevelRegistry { names: Vec::new(), floors: Vec::new(), initialized: false }
    }

    /// One-time population from the parsing collaborator's entries.
    ///
    /// Idempotent: on an already populated registry nothing changes and the
    /// call reports `false`.  The entries are accepted only when they pair
    /// one floor with every name and every name is normalized; otherwise
    /// the registry stays empty and uninitialized.
    pub fn ensure_init(&mut self, names: Vec<String>, floors: Vec<FloorInfo>) -> (r: bool)
        ensures
            old(self).initialized ==> *final(self) == *old(self) && !r,
            !old(self).initialized && r ==> final(self).initialized && final(self).keys()
                == names.deep_view() && final(self).floor_models() == floors.deep_view(),
            !old(self).initialized ==> (r <==> (names.deep_view().len()
                == floors.deep_view().len() && forall|k: int|
                0 <= k < names.deep_view().len() ==> is_normalized(
                    #[trigger] names.deep_view()[k],
                ))),
            !old(self).initialized && !r ==> *final(self) == *old(self),
            old(self).wf() && !r ==> final(self).wf(),
            r ==> final(self).wf(),
    {
        if self.initialized {
            return false;
        }
        if names.len() != floors.len() {
            return false;
        }
        let mut k: usize = 0;
        while k < names.len()
            invariant
                k <= names@.len(),
                forall|m: int| 0 <= m < k ==> is_normalized(#[trigger] names.deep_view()[m]),
            decreases names@.len() - k,
        {
            if !str_is_normalized(names[k].as_str()) {
                proof {
                    assert(!is_normalized(names.deep_view()[k as int]));
                }
                return false;
            }
            k += 1;
        }
        self.names = names;
        self.floors = floors;
        self.initialized = true;
        true
    }

    /// Looks a sublevel up by its human-readable identifier, compared
    /// case-insensitively (ASCII) against the normalized keys.  Fails with
    /// `NotFound` exactly when no registered key matches; on success the
    /// returned parameters are those of the first matching entry.
    pub fn lookup(&self, id: &str) -> (r: Result<&FloorInfo, CaveInfoError>)
        requires
            self.keys().len() == self.floor_models().len(),
        ensures
            (r is Ok) <==> exists|k: int|
                0 <= k < self.keys().len() && lower_matches(id@, #[trigger] self.keys()[k]),
            r matches Ok(f) ==> exists|k: int|
                {
                    &&& 0 <= k < self.keys().len()
                    &&& lower_matches(id@, #[trigger] self.keys()[k])
                    &&& forall|m: int| 0 <= m < k ==> !lower_matches(id@, #[trigger] self.keys()[m])
                    &&& f@ == self.floor_models()[k]
                },
            r matches Err(e) ==> e == CaveInfoError::NotFound,
    {
        let mut k: usize = 0;
        while k < self.names.len()
            invariant
                self.keys().len() == self.floor_models().len(),
                self.keys().len() == self.names@.len(),
                k <= self.names@.len(),
                forall|m: int| 0 <= m < k ==> !lower_matches(id@, #[trigger] self.keys()[m]),
            decreases self.names@.len() - k,
        {
            if str_lower_matches(id, self.names[k].as_str()) {
                proof {
                    assert(lower_matches(id@, self.keys()[k as int]));
                    assert(self.floors@[k as int]@ == self.floor_models()[k as int]);
                }
                return Ok(&self.floors[k]);
            }
            k += 1;
        }
        Err(CaveInfoError::NotFound)
    }
}

} // verus!
