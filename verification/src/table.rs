//! The city-to-timezone table and fail-fast resolution of requested cities.
//!
//! The table maps city names to timezone identifiers; names are matched
//! verbatim, case-sensitively.  Resolution walks the requested names in
//! order and either pairs every one with its identifier or stops at the
//! first name the table does not hold.

use vstd::prelude::*;

verus! {

/// The result of looking `name` up among `entries`, scanning from the
/// front: the identifier paired with the first entry whose key is `name`.
pub open spec fn lookup_from(
    entries: Seq<(Seq<char>, Seq<char>)>,
    name: Seq<char>,
    i: int,
) -> Option<Seq<char>>
    decreases entries.len() - i,
{
    if i < 0 || i >= entries.len() {
        None
    } else if entries[i].0 == name {
        Some(entries[i].1)
    } else {
        lookup_from(entries, name, i + 1)
    }
}

/// An immutable mapping from city name to timezone identifier, built once
/// and only read afterwards.  Its keys are unique: `add` refuses a city the
/// table already holds.
pub struct CityTable {
    entries: Vec<(String, String)>,
}

impl View for CityTable {
    type V = Seq<(Seq<char>, Seq<char>)>;

    closed spec fn view(&self) -> Seq<(Seq<char>, Seq<char>)> {
        self.entries@.map_values(|e: (String, String)| (e.0@, e.1@))
    }
}

impl CityTable {
    /// Whether the table holds an entry for `name`.
    pub open spec fn has_city(self, name: Seq<char>) -> bool {
        lookup_from(self@, name, 0) is Some
    }

    /// The timezone identifier the table pairs with `name`.
    pub open spec fn tz_of(self, name: Seq<char>) -> Seq<char> {
        lookup_from(self@, name, 0)->Some_0
    }

    /// Key uniqueness: no two entries name the same city.
    pub open spec fn wf(self) -> bool {
        forall|i: int, j: int| 0 <= i < j < self@.len() ==> self@[i].0 != self@[j].0
    }

    /// An empty table.
    pub fn new() -> (r: CityTable)
        ensures
            r@ =~= Seq::<(Seq<char>, Seq<char>)>::empty(),
            r.wf(),
    {
        let r = CityTable { entries: Vec::new() };
        assert(r@ =~= Seq::<(Seq<char>, Seq<char>)>::empty());
        r
    }

    /// The number of entries.
    pub fn len(&self) -> (r: usize)
        ensures
            r == self@.len(),
    {
        self.entries.len()
    }

    /// Add one `(city, tz)` entry.  A city the table already holds is
    /// refused, which keeps the keys unique; the result says whether the
    /// entry went in.
    pub fn add(&mut self, city: String, tz: String) -> (added: bool)
        requires
            old(self).wf(),
        ensures
            final(self).wf(),
            added <==> !old(self).has_city(city@),
            added ==> final(self)@ =~= old(self)@.push((city@, tz@)),
            !added ==> final(self)@ == old(self)@,
    {
        if self.lookup(&city).is_some() {
            return false;
        }
        proof {
            assert forall|j: int| 0 <= j < self@.len() implies (#[trigger] self@[j]).0 != city@ by {
                if self@[j].0 == city@ {
                    lemma_match_lookup_some(self@, city@, 0, j);
                }
            }
        }
        self.entries.push((city, tz));
        assert(self@ =~= old(self)@.push((city@, tz@)));
        true
    }

    /// Look `name` up, returning the paired timezone identifier exactly when
    /// the table holds the city.
    pub fn lookup(&self, name: &String) -> (r: Option<&String>)
        ensures
            r is Some <==> self.has_city(name@),
            r matches Some(tz) ==> tz@ == self.tz_of(name@),
    {
        let n = self.entries.len();
        for i in 0..n
            invariant
                n == self.entries@.len(),
                forall|j: int| 0 <= j < i ==> (#[trigger] self@[j]).0 != name@,
                lookup_from(self@, name@, 0) == lookup_from(self@, name@, i as int),
        {
            if self.entries[i].0 == *name {
                return Some(&self.entries[i].1);
            }
        }
        None
    }
}

/// A key that occurs at position `j` is found by a scan that starts at or
/// before `j`.
proof fn lemma_match_lookup_some(
    entries: Seq<(Seq<char>, Seq<char>)>,
    name: Seq<char>,
    i: int,
    j: int,
)
    requires
        0 <= i <= j < entries.len(),
        entries[j].0 == name,
    ensures
        lookup_from(entries, name, i) is Some,
    decreases j - i,
{
    if i < j && entries[i].0 != name {
        lemma_match_lookup_some(entries, name, i + 1, j);
    }
}

/// The resolution failure: the first requested city the table does not
/// hold, and its position among the requests.
#[derive(Debug)]
pub struct CityNotFound {
    /// The offending city name, exactly as requested.
    pub city: String,
    /// The position of that name among the requests.
    pub index: usize,
}

/// Resolve every requested city against the table, in request order,
/// fail-fast: either every name is paired with its timezone identifier, or
/// the first name without an entry is reported and nothing is produced for
/// any city.
pub fn resolve_cities(table: &CityTable, cities: &Vec<String>) -> (r: Result<
    Vec<(String, String)>,
    CityNotFound,
>)
    ensures
        r is Ok <==> (forall|i: int|
            0 <= i < cities@.len() ==> table.has_city(#[trigger] cities@[i]@)),
        r matches Ok(pairs) ==> {
            &&& pairs@.len() == cities@.len()
            &&& forall|i: int|
                0 <= i < cities@.len() ==> (#[trigger] pairs@[i]).0@ == cities@[i]@
                    && pairs@[i].1@ == table.tz_of(cities@[i]@)
        },
        r matches Err(e) ==> {
            &&& e.index < cities@.len()
            &&& !table.has_city(cities@[e.index as int]@)
            &&& forall|j: int| 0 <= j < e.index ==> table.has_city(#[trigger] cities@[j]@)
            &&& e.city@ == cities@[e.index as int]@
        },
{
    let mut pairs: Vec<(String, String)> = Vec::new();
    let n = cities.len();
    for i in 0..n
        invariant
            n == cities@.len(),
            pairs@.len() == i,
            forall|j: int| 0 <= j < i ==> table.has_city(#[trigger] cities@[j]@),
            forall|j: int|
                0 <= j < i ==> (#[trigger] pairs@[j]).0@ == cities@[j]@ && pairs@[j].1@
                    == table.tz_of(cities@[j]@),
    {
        match table.lookup(&cities[i]) {
            Some(tz) => {
                let city = cities[i].clone();
                let tz = tz.clone();
                pairs.push((city, tz));
            },
            None => {
                let city = cities[i].clone();
                return Err(CityNotFound { city, index: i });
            },
        }
    }
    Ok(pairs)
}

impl CityNotFound {
    /// The user-visible message naming the offending city.
    pub fn message(&self) -> (r: String)
        ensures
            r@ == "Timezone not found for city: "@ + self.city@,
    {
        "Timezone not found for city: ".to_owned().concat(self.city.as_str())
    }
}

} // verus!
