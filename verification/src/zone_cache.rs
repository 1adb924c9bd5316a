//! A cache of the time zones looked up so far.
use vstd::prelude::*;

use crate::clock::{builtin_zone_name, tz_name_known, Zone};
use crate::json::str_equal;
use crate::text::concat2;

verus! {

/// The error for a name that no time zone has.
pub open spec fn invalid_zone_message(name: Seq<char>) -> Seq<char> {
    "invalid timezone "@ + name
}

/// The names in a cache after looking `name` up: a known name not yet held is added
/// at the end; otherwise nothing changes.
pub open spec fn after_load(names: Seq<Seq<char>>, name: Seq<char>) -> Seq<Seq<char>> {
    if names.contains(name) || !tz_name_known(name) {
        names
    } else {
        names.push(name)
    }
}

/// The time zones looked up so far, each once, in the order they were first asked for.
pub struct ZoneCache {
    zones: Vec<Zone>,
}

impl View for ZoneCache {
    type V = Seq<Seq<char>>;

    closed spec fn view(&self) -> Seq<Seq<char>> {
        Seq::new(self.zones@.len(), |i: int| self.zones@[i]@)
    }
}

impl ZoneCache {
    /// Each name is held once, and only names of known zones are held.
    #[verifier::type_invariant]
    closed spec fn well_formed(&self) -> bool {
        &&& forall|i: int, j: int|
            0 <= i < j < self.zones@.len() ==> #[trigger] self.zones@[i]@ != #[trigger] self.zones@[j]@
        &&& forall|i: int| 0 <= i < self.zones@.len() ==> tz_name_known(#[trigger] self.zones@[i]@)
    }

    pub fn new() -> (r: ZoneCache)
        ensures
            r@ == Seq::<Seq<char>>::empty(),
    {
        let r = ZoneCache { zones: Vec::new() };
        assert(r@ =~= Seq::<Seq<char>>::empty());
        r
    }

    /// The number of zones held.
    pub fn len(&self) -> (r: usize)
        ensures
            r == self@.len(),
    {
        self.zones.len()
    }

    /// The zone held under `name`, if any.
    pub fn find(&self, name: &str) -> (r: Option<Zone>)
        ensures
            r.is_some() == self@.contains(name@),
            r matches Some(z) ==> z@ == name@,
    {
        let n = self.zones.len();
        let mut k: usize = 0;
        while k < n
            invariant
                n == self.zones@.len(),
                k <= n,
                forall|i: int| 0 <= i < k ==> self.zones@[i]@ != name@,
            decreases n - k,
        {
            if str_equal(self.zones[k].name(), name) {
                assert(self@[k as int] == name@);
                return Some(self.zones[k].copy());
            }
            k = k + 1;
        }
        assert(!self@.contains(name@)) by {
            if self@.contains(name@) {
                let i = choose|i: int| 0 <= i < self@.len() && self@[i] == name@;
                assert(self.zones@[i]@ == name@);
            }
        }
        None
    }

    /// Load timezone with caching: the zone named `name`, from the cache if it is held
    /// there, else looked up and, when known, remembered.
    pub fn load(&mut self, name: &str) -> (r: Result<Zone, String>)
        ensures
            r is Ok <==> tz_name_known(name@),
            builtin_zone_name(name@) ==> r is Ok,
            r matches Ok(z) ==> z@ == name@,
            r matches Err(e) ==> e@ == invalid_zone_message(name@),
            final(self)@ == after_load(old(self)@, name@),
    {
        proof {
            use_type_invariant(&*self);
        }
        if let Some(z) = self.find(name) {
            proof {
                let i = choose|i: int| 0 <= i < self@.len() && self@[i] == name@;
                assert(tz_name_known(self.zones@[i]@));
            }
            return Ok(z);
        }
        match Zone::parse(name) {
            Some(z) => {
                let mut zones = Vec::new();
                std::mem::swap(&mut zones, &mut self.zones);
                let ghost before = zones@;
                zones.push(z.copy());
                proof {
                    assert forall|i: int, j: int|
                        0 <= i < j < zones@.len() implies #[trigger] zones@[i]@ != #[trigger] zones@[j]@ by {
                        if j == before.len() {
                            assert(old(self)@[i] == before[i]@);
                        }
                    }
                }
                self.zones = zones;
                assert(self@ =~= old(self)@.push(name@));
                Ok(z)
            },
            None => Err(concat2("invalid timezone ", name)),
        }
    }
}

/// Looking a name up twice leaves the cache as the first look-up left it.
pub proof fn lemma_load_idempotent(names: Seq<Seq<char>>, name: Seq<char>)
    ensures
        after_load(after_load(names, name), name) == after_load(names, name),
{
    if !names.contains(name) && tz_name_known(name) {
        assert(names.push(name).contains(name)) by {
            assert(names.push(name)[names.len() as int] == name);
        }
    }
}

/// A name held before a look-up is held after it.
pub proof fn lemma_load_keeps_held(names: Seq<Seq<char>>, y: Seq<char>)
    ensures
        forall|x: Seq<char>| names.contains(x) ==> #[trigger] after_load(names, y).contains(x),
        after_load(names, y).contains(y) || !tz_name_known(y),
{
    if !names.contains(y) && tz_name_known(y) {
        assert(names.push(y)[names.len() as int] == y);
        assert forall|x: Seq<char>| names.contains(x) implies names.push(y).contains(x) by {
            let i = choose|i: int| 0 <= i < names.len() && names[i] == x;
            assert(names.push(y)[i] == x);
        }
    }
}

/// A look-up never forgets a zone: the names held before are held after, in order.
pub proof fn lemma_load_keeps_names(names: Seq<Seq<char>>, name: Seq<char>)
    ensures
        after_load(names, name).subrange(0, names.len() as int) == names,
        after_load(names, name).contains(name) <==> (names.contains(name) || tz_name_known(name)),
{
    if !names.contains(name) && tz_name_known(name) {
        assert(names.push(name).subrange(0, names.len() as int) =~= names);
        assert(names.push(name)[names.len() as int] == name);
    } else {
        assert(names.subrange(0, names.len() as int) =~= names);
    }
}

} // verus!
