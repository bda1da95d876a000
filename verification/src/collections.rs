//! The persistent collections of the `im` crate that the vote tally is built
//! on. Nothing here is proved: each function below makes one call into `im`
//! and states what that call does to what the collection holds.

use vstd::prelude::*;

verus! {

/// Makes `im::OrdMap` known to the verifier, as a type whose inside it
/// does not see.
#[verifier::external_type_specification]
#[verifier::external_body]
#[verifier::reject_recursive_types(K)]
#[verifier::reject_recursive_types(V)]
pub struct ExOrdMap<K, V>(im::OrdMap<K, V>);

/// Makes `im::HashMap` known to the verifier, as a type whose inside it
/// does not see.
#[verifier::external_type_specification]
#[verifier::external_body]
#[verifier::reject_recursive_types(K)]
#[verifier::reject_recursive_types(V)]
#[verifier::reject_recursive_types(S)]
pub struct ExHashMap<K, V, S>(im::HashMap<K, V, S>);

/// Makes `im::HashSet` known to the verifier, as a type whose inside it
/// does not see.
#[verifier::external_type_specification]
#[verifier::external_body]
#[verifier::reject_recursive_types(A)]
#[verifier::reject_recursive_types(S)]
pub struct ExHashSet<A, S>(im::HashSet<A, S>);

/// The weight of each validator key in a power table.
pub uninterp spec fn power_map(table: im::HashMap<Vec<u8>, u64>) -> Map<Seq<u8>, u64>;

/// The block hash of each height in a chain; `None` for a null round.
pub uninterp spec fn chain_map(chain: im::OrdMap<u64, Option<Vec<u8>>>) -> Map<
    u64,
    Option<Seq<u8>>,
>;

/// The keys in a set of voters.
pub uninterp spec fn voter_set(voters: im::HashSet<Vec<u8>>) -> Set<Seq<u8>>;

/// The voters of each block hash, for the votes of one height.
pub uninterp spec fn hash_votes(votes: im::HashMap<Vec<u8>, im::HashSet<Vec<u8>>>) -> Map<
    Seq<u8>,
    Set<Seq<u8>>,
>;

/// The voters of each block hash at each height.
pub uninterp spec fn height_votes(
    votes: im::HashMap<u64, im::HashMap<Vec<u8>, im::HashSet<Vec<u8>>>>,
) -> Map<u64, Map<Seq<u8>, Set<Seq<u8>>>>;

/// The power table without any validator.
pub open spec fn no_power() -> Map<Seq<u8>, u64> {
    Map::empty()
}

/// The chain without any height.
pub open spec fn no_chain() -> Map<u64, Option<Seq<u8>>> {
    Map::empty()
}

/// The set without any voter.
pub open spec fn no_voters() -> Set<Seq<u8>> {
    Set::empty()
}

/// The votes of a height at which nobody voted.
pub open spec fn no_hash_votes() -> Map<Seq<u8>, Set<Seq<u8>>> {
    Map::empty()
}

/// The votes before anybody voted.
pub open spec fn no_height_votes() -> Map<u64, Map<Seq<u8>, Set<Seq<u8>>>> {
    Map::empty()
}

/// A block hash, or the mark of a null round, as a mathematical value.
pub open spec fn hash_view(hash: Option<Vec<u8>>) -> Option<Seq<u8>> {
    match hash {
        Some(h) => Some(h@),
        None => None,
    }
}

/// The byte strings of a list, each as a mathematical value.
pub open spec fn byte_views(list: Seq<Vec<u8>>) -> Seq<Seq<u8>> {
    list.map_values(|v: Vec<u8>| v@)
}

/// The heights above `floor`.
pub open spec fn heights_above(floor: u64) -> Set<u64> {
    Set::new(|h: u64| h > floor)
}

/// The heights at or above `floor`.
pub open spec fn heights_from(floor: u64) -> Set<u64> {
    Set::new(|h: u64| h >= floor)
}

/// Whether `height` is at or above `floor`.
pub fn at_or_above(height: u64, floor: u64) -> (b: bool)
    ensures
        b == (height >= floor),
{
    height >= floor
}

/// `im::HashMap::new`: a map that holds nothing.
#[verifier::external_body]
pub(crate) fn power_new() -> (table: im::HashMap<Vec<u8>, u64>)
    ensures
        power_map(table) == no_power(),
{
    im::HashMap::new()
}

/// `Clone` of `im::HashMap`: a map that holds what this one holds.
#[verifier::external_body]
pub(crate) fn power_clone(table: &im::HashMap<Vec<u8>, u64>) -> (copy: im::HashMap<Vec<u8>, u64>)
    ensures
        power_map(copy) == power_map(*table),
{
    table.clone()
}

/// `im::HashMap::insert`: the key now maps to the weight given, whatever it
/// mapped to before; every other key is as it was.
#[verifier::external_body]
pub(crate) fn power_insert(table: &mut im::HashMap<Vec<u8>, u64>, key: Vec<u8>, weight: u64)
    ensures
        power_map(*final(table)) == power_map(*old(table)).insert(key@, weight),
{
    table.insert(key, weight);
}

/// `im::HashMap::contains_key`: whether the key is in the map.
#[verifier::external_body]
pub(crate) fn power_contains(table: &im::HashMap<Vec<u8>, u64>, key: &Vec<u8>) -> (found: bool)
    ensures
        found == power_map(*table).dom().contains(key@),
{
    table.contains_key(key)
}

/// `im::HashMap::get`: the weight that the key maps to, if it is in the map.
#[verifier::external_body]
pub(crate) fn power_get(table: &im::HashMap<Vec<u8>, u64>, key: &Vec<u8>) -> (weight: Option<u64>)
    ensures
        weight == (if power_map(*table).dom().contains(key@) {
            Some(power_map(*table)[key@])
        } else {
            None
        }),
{
    table.get(key).copied()
}

/// `im::HashMap::keys`: every key of the map once, in no stated order.
#[verifier::external_body]
pub(crate) fn power_keys(table: &im::HashMap<Vec<u8>, u64>) -> (keys: Vec<Vec<u8>>)
    ensures
        byte_views(keys@).no_duplicates(),
        byte_views(keys@).to_set() == power_map(*table).dom(),
{
    table.keys().cloned().collect()
}

/// `im::OrdMap::new`: a map that holds nothing.
#[verifier::external_body]
pub(crate) fn chain_new() -> (chain: im::OrdMap<u64, Option<Vec<u8>>>)
    ensures
        chain_map(chain) == no_chain(),
{
    im::OrdMap::new()
}

/// `Clone` of `im::OrdMap`: a map that holds what this one holds.
#[verifier::external_body]
pub(crate) fn chain_clone(chain: &im::OrdMap<u64, Option<Vec<u8>>>) -> (copy: im::OrdMap<
    u64,
    Option<Vec<u8>>,
>)
    ensures
        chain_map(copy) == chain_map(*chain),
{
    chain.clone()
}

/// `im::OrdMap::insert`: the height now maps to the hash given, whatever it
/// mapped to before; every other height is as it was.
#[verifier::external_body]
pub(crate) fn chain_insert(
    chain: &mut im::OrdMap<u64, Option<Vec<u8>>>,
    height: u64,
    hash: Option<Vec<u8>>,
)
    ensures
        chain_map(*final(chain)) == chain_map(*old(chain)).insert(height, hash_view(hash)),
{
    chain.insert(height, hash);
}

/// `im::OrdMap::get`: what the height maps to, if it is in the map.
#[verifier::external_body]
pub(crate) fn chain_get(chain: &im::OrdMap<u64, Option<Vec<u8>>>, height: u64) -> (entry: Option<
    Option<Vec<u8>>,
>)
    ensures
        match entry {
            Some(hash) => chain_map(*chain).dom().contains(height) && chain_map(*chain)[height]
                == hash_view(hash),
            None => !chain_map(*chain).dom().contains(height),
        },
{
    chain.get(&height).cloned()
}

/// `im::OrdMap::get_min`: the smallest height in the map, if it holds any.
#[verifier::external_body]
pub(crate) fn chain_min(chain: &im::OrdMap<u64, Option<Vec<u8>>>) -> (lowest: Option<u64>)
    ensures
        match lowest {
            Some(h) => chain_map(*chain).dom().contains(h) && forall|k: u64|
                chain_map(*chain).dom().contains(k) ==> h <= k,
            None => forall|k: u64| !chain_map(*chain).dom().contains(k),
        },
{
    chain.get_min().map(|e| e.0)
}

/// `im::OrdMap::get_max`: the largest height in the map, if it holds any.
#[verifier::external_body]
pub(crate) fn chain_max(chain: &im::OrdMap<u64, Option<Vec<u8>>>) -> (highest: Option<u64>)
    ensures
        match highest {
            Some(h) => chain_map(*chain).dom().contains(h) && forall|k: u64|
                chain_map(*chain).dom().contains(k) ==> k <= h,
            None => forall|k: u64| !chain_map(*chain).dom().contains(k),
        },
{
    chain.get_max().map(|e| e.0)
}

/// `im::OrdMap::split`: of its two results the second, which holds the
/// entries of the map whose height is larger than the one given.
#[verifier::external_body]
pub(crate) fn chain_above(chain: &im::OrdMap<u64, Option<Vec<u8>>>, height: u64) -> (rest:
    im::OrdMap<u64, Option<Vec<u8>>>)
    ensures
        chain_map(rest) == chain_map(*chain).restrict(heights_above(height)),
{
    chain.split(&height).1
}

/// `im::HashSet::new`: a set that holds nothing.
#[verifier::external_body]
pub(crate) fn voters_new() -> (voters: im::HashSet<Vec<u8>>)
    ensures
        voter_set(voters) == no_voters(),
{
    im::HashSet::new()
}

/// `im::HashSet::contains`: whether the key is in the set.
#[verifier::external_body]
pub(crate) fn voters_contains(voters: &im::HashSet<Vec<u8>>, key: &Vec<u8>) -> (found: bool)
    ensures
        found == voter_set(*voters).contains(key@),
{
    voters.contains(key)
}

/// `im::HashSet::insert`: the key is in the set afterwards, beside what was
/// in it before.
#[verifier::external_body]
pub(crate) fn voters_insert(voters: &mut im::HashSet<Vec<u8>>, key: Vec<u8>)
    ensures
        voter_set(*final(voters)) == voter_set(*old(voters)).insert(key@),
{
    voters.insert(key);
}

/// `im::HashSet::iter`: every key of the set once, in no stated order.
#[verifier::external_body]
pub(crate) fn voters_list(voters: &im::HashSet<Vec<u8>>) -> (keys: Vec<Vec<u8>>)
    ensures
        byte_views(keys@).no_duplicates(),
        byte_views(keys@).to_set() == voter_set(*voters),
{
    voters.iter().cloned().collect()
}

/// `im::HashMap::new`: a map that holds nothing.
#[verifier::external_body]
pub(crate) fn hash_votes_new() -> (votes: im::HashMap<Vec<u8>, im::HashSet<Vec<u8>>>)
    ensures
        hash_votes(votes) == no_hash_votes(),
{
    im::HashMap::new()
}

/// `im::HashMap::get`: the voters that the hash maps to, if it is in the map.
#[verifier::external_body]
pub(crate) fn hash_votes_get(
    votes: &im::HashMap<Vec<u8>, im::HashSet<Vec<u8>>>,
    hash: &Vec<u8>,
) -> (voters: Option<im::HashSet<Vec<u8>>>)
    ensures
        match voters {
            Some(s) => hash_votes(*votes).dom().contains(hash@) && hash_votes(*votes)[hash@]
                == voter_set(s),
            None => !hash_votes(*votes).dom().contains(hash@),
        },
{
    votes.get(hash).cloned()
}

/// `im::HashMap::insert`: the hash now maps to the voters given, whatever it
/// mapped to before; every other hash is as it was.
#[verifier::external_body]
pub(crate) fn hash_votes_insert(
    votes: &mut im::HashMap<Vec<u8>, im::HashSet<Vec<u8>>>,
    hash: Vec<u8>,
    voters: im::HashSet<Vec<u8>>,
)
    ensures
        hash_votes(*final(votes)) == hash_votes(*old(votes)).insert(hash@, voter_set(voters)),
{
    votes.insert(hash, voters);
}

/// `im::HashMap::keys`: every hash of the map once, in no stated order.
#[verifier::external_body]
pub(crate) fn hash_votes_keys(votes: &im::HashMap<Vec<u8>, im::HashSet<Vec<u8>>>) -> (hashes: Vec<
    Vec<u8>,
>)
    ensures
        byte_views(hashes@).no_duplicates(),
        byte_views(hashes@).to_set() == hash_votes(*votes).dom(),
{
    votes.keys().cloned().collect()
}

/// `im::HashMap::new`: a map that holds nothing.
#[verifier::external_body]
pub(crate) fn height_votes_new() -> (votes: im::HashMap<
    u64,
    im::HashMap<Vec<u8>, im::HashSet<Vec<u8>>>,
>)
    ensures
        height_votes(votes) == no_height_votes(),
{
    im::HashMap::new()
}

/// `Clone` of `im::HashMap`: a map that holds what this one holds.
#[verifier::external_body]
pub(crate) fn height_votes_clone(
    votes: &im::HashMap<u64, im::HashMap<Vec<u8>, im::HashSet<Vec<u8>>>>,
) -> (copy: im::HashMap<u64, im::HashMap<Vec<u8>, im::HashSet<Vec<u8>>>>)
    ensures
        height_votes(copy) == height_votes(*votes),
{
    votes.clone()
}

/// `im::HashMap::get`: the votes that the height maps to, if it is in the
/// map.
#[verifier::external_body]
pub(crate) fn height_votes_get(
    votes: &im::HashMap<u64, im::HashMap<Vec<u8>, im::HashSet<Vec<u8>>>>,
    height: u64,
) -> (at_height: Option<im::HashMap<Vec<u8>, im::HashSet<Vec<u8>>>>)
    ensures
        match at_height {
            Some(m) => height_votes(*votes).dom().contains(height) && height_votes(*votes)[height]
                == hash_votes(m),
            None => !height_votes(*votes).dom().contains(height),
        },
{
    votes.get(&height).cloned()
}

/// `im::HashMap::insert`: the height now maps to the votes given, whatever
/// it mapped to before; every other height is as it was.
#[verifier::external_body]
pub(crate) fn height_votes_insert(
    votes: &mut im::HashMap<u64, im::HashMap<Vec<u8>, im::HashSet<Vec<u8>>>>,
    height: u64,
    at_height: im::HashMap<Vec<u8>, im::HashSet<Vec<u8>>>,
)
    ensures
        height_votes(*final(votes)) == height_votes(*old(votes)).insert(
            height,
            hash_votes(at_height),
        ),
{
    votes.insert(height, at_height);
}

/// `im::HashMap::retain`, asked to keep the heights at or above `floor`: the
/// entries of those heights stay, the others leave.
#[verifier::external_body]
pub(crate) fn height_votes_retain_from(
    votes: &mut im::HashMap<u64, im::HashMap<Vec<u8>, im::HashSet<Vec<u8>>>>,
    floor: u64,
)
    ensures
        height_votes(*final(votes)) == height_votes(*old(votes)).restrict(heights_from(floor)),
{
    votes.retain(|height, _| at_or_above(*height, floor));
}

} // verus!
