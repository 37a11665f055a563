//! Compiling a catalog into one multi-pattern automaton, and scanning bytes
//! with it.
use vstd::prelude::*;

use aho_corasick::{AhoCorasick, BuildError};

use crate::endian::{AsByteVec, Endianness};
use crate::patterns::Pattern;

verus! {

#[verifier::external_type_specification]
#[verifier::external_body]
pub struct ExAhoCorasick(AhoCorasick);

#[verifier::external_type_specification]
#[verifier::external_body]
pub struct ExBuildError(BuildError);

/// The patterns that an Aho-Corasick searcher was built from, by pattern id.
pub uninterp spec fn searcher_patterns(a: AhoCorasick) -> Seq<Seq<u8>>;

/// Whether an Aho-Corasick searcher can be built over `pats`, within the
/// library's limits on pattern ids, pattern lengths and automaton states.
pub uninterp spec fn ac_builds(pats: Seq<Seq<u8>>) -> bool;

/// The byte views of a list of byte vectors.
pub open spec fn views(pats: Seq<Vec<u8>>) -> Seq<Seq<u8>> {
    pats.map_values(|p: Vec<u8>| p@)
}

/// `pat` stands in `hay` starting at offset `off`.
pub open spec fn occurs_at(pat: Seq<u8>, off: int, hay: Seq<u8>) -> bool {
    &&& 0 <= off
    &&& off + pat.len() <= hay.len()
    &&& hay.subrange(off, off + pat.len()) == pat
}

/// Pattern `k` of `pats` stands in `hay` starting at offset `off`.
pub open spec fn is_occurrence(pats: Seq<Seq<u8>>, k: int, off: int, hay: Seq<u8>) -> bool {
    &&& 0 <= k < pats.len()
    &&& occurs_at(pats[k], off, hay)
}

/// Relies on aho_corasick's `AhoCorasick::new`: whether it succeeds depends
/// on the patterns alone, an empty pattern list always builds, and on success
/// the searcher holds the given patterns, pattern `i` under id `i`.
#[verifier::external_body]
fn new_searcher(patterns: &Vec<Vec<u8>>) -> (r: Result<AhoCorasick, BuildError>)
    ensures
        r is Ok == ac_builds(views(patterns@)),
        patterns@.len() == 0 ==> r is Ok,
        r matches Ok(a) ==> searcher_patterns(a) == views(patterns@),
{
    AhoCorasick::new(patterns)
}

/// Relies on aho_corasick's `AhoCorasick::find_overlapping_iter`: all matches
/// at every position, each as (pattern id, start offset), each match once. A searcher built by
/// `AhoCorasick::new` has standard match semantics, under which this search
/// does not panic.
#[verifier::external_body]
fn find_overlapping(a: &AhoCorasick, hay: &[u8]) -> (r: Vec<(usize, usize)>)
    ensures
        r@.no_duplicates(),
        forall|i: int|
            0 <= i < r.len() ==> is_occurrence(
                searcher_patterns(*a),
                #[trigger] r@[i].0 as int,
                r@[i].1 as int,
                hay@,
            ),
        forall|k: int, off: int|
            is_occurrence(searcher_patterns(*a), k, off, hay@) ==> exists|i: int| 0 <= i < r.len() && #[trigger] r@[i] == (k as usize, off as usize),
{
    a.find_overlapping_iter(hay).map(|m| (m.pattern().as_usize(), m.start())).collect()
}

/// The byte order that automaton index `k` stands for: even indices are
/// little-endian, odd ones big-endian.
pub open spec fn order_of_index(k: int) -> Endianness {
    if k % 2 == 0 {
        Endianness::LittleEndian
    } else {
        Endianness::BigEndian
    }
}

/// The automaton index of catalog entry `i` in byte order `e`.
pub open spec fn index_of(i: int, e: Endianness) -> int {
    match e {
        Endianness::LittleEndian => 2 * i,
        Endianness::BigEndian => 2 * i + 1,
    }
}

/// The automaton patterns of a catalog: for each entry in order, its
/// little-endian encoding, then its big-endian one.
pub open spec fn interleaved(catalog: Seq<Pattern>) -> Seq<Seq<u8>> {
    Seq::new(
        2 * catalog.len(),
        |k: int| catalog[k / 2].bytes.byte_view(order_of_index(k)),
    )
}

/// A match: catalog entry `pattern_index` found at `byte_offset` in byte
/// order `byte_order`.
#[derive(Debug, Clone, Copy, PartialEq, Eq, Structural)]
pub struct MatchRecord {
    pub pattern_index: usize,
    pub byte_offset: usize,
    pub byte_order: Endianness,
}

/// The record for a match of automaton pattern `k` at offset `off`.
pub open spec fn record_of(k: int, off: int) -> MatchRecord {
    MatchRecord {
        pattern_index: (k / 2) as usize,
        byte_offset: off as usize,
        byte_order: order_of_index(k),
    }
}

/// `recs` is what a scan of `hay` over automaton patterns `pats` reports:
/// every record is a true match and stands once, and every occurrence of a
/// pattern has its record.
pub open spec fn scan_result(pats: Seq<Seq<u8>>, hay: Seq<u8>, recs: Seq<MatchRecord>) -> bool {
    &&& recs.no_duplicates()
    &&& forall|i: int|
        0 <= i < recs.len() ==> is_occurrence(
            pats,
            index_of(#[trigger] recs[i].pattern_index as int, recs[i].byte_order),
            recs[i].byte_offset as int,
            hay,
        )
    &&& forall|k: int, off: int|
        is_occurrence(pats, k, off, hay) ==> exists|i: int|
            0 <= i < recs.len() && #[trigger] recs[i] == record_of(k, off)
}

/// Splits automaton index `k` into the catalog entry and the byte order it
/// stands for.
pub fn decode(k: usize) -> (r: (usize, Endianness))
    ensures
        r.0 == k / 2,
        r.1 == order_of_index(k as int),
        index_of(r.0 as int, r.1) == k,
{
    let order = if k % 2 == 0 {
        Endianness::LittleEndian
    } else {
        Endianness::BigEndian
    };
    (k / 2, order)
}

/// The automaton patterns of `catalog`, interleaved by byte order.
pub fn interleaved_patterns(catalog: &Vec<Pattern>) -> (r: Vec<Vec<u8>>)
    ensures
        views(r@) == interleaved(catalog@),
{
    let mut r: Vec<Vec<u8>> = Vec::new();
    let mut i: usize = 0;
    while i < catalog.len()
        invariant
            i <= catalog@.len(),
            r@.len() == 2 * i,
            forall|k: int|
                0 <= k < 2 * i ==> #[trigger] r@[k]@ == catalog@[k / 2].bytes.byte_view(
                    order_of_index(k),
                ),
        decreases catalog.len() - i,
    {
        let entry = &catalog[i];
        r.push(entry.bytes.as_byte_vec(Endianness::LittleEndian));
        r.push(entry.bytes.as_byte_vec(Endianness::BigEndian));
        proof {
            assert forall|k: int| 0 <= k < 2 * (i + 1) implies #[trigger] r@[k]@
                == catalog@[k / 2].bytes.byte_view(order_of_index(k)) by {
                if k >= 2 * i {
                    assert(k / 2 == i as int);
                }
            }
        }
        i = i + 1;
    }
    assert(views(r@) =~= interleaved(catalog@));
    r
}

/// Why an automaton could not be built.
#[derive(Debug, Clone, Copy, PartialEq, Eq, Structural)]
pub enum ScanError {
    /// The patterns exceed what the automaton can index.
    AutomatonTooLarge,
}

/// A catalog compiled for simultaneous search of all its tables in both byte
/// orders.
pub struct CompiledAutomaton {
    patterns: Vec<Vec<u8>>,
    searcher: AhoCorasick,
}

impl CompiledAutomaton {
    /// The automaton's patterns, by automaton index.
    pub closed spec fn patterns(&self) -> Seq<Seq<u8>> {
        views(self.patterns@)
    }

    pub closed spec fn wf(&self) -> bool {
        searcher_patterns(self.searcher) == self.patterns()
    }

    /// The number of patterns.
    pub fn len(&self) -> (r: usize)
        ensures
            r == self.patterns().len(),
    {
        self.patterns.len()
    }
}

/// Compiles `catalog` into an automaton whose pattern `2 * i` is the
/// little-endian encoding of entry `i` and pattern `2 * i + 1` its big-endian
/// one. Fails only where the automaton library cannot hold the patterns; an
/// empty catalog always compiles.
pub fn build_automaton(catalog: &Vec<Pattern>) -> (r: Result<CompiledAutomaton, ScanError>)
    ensures
        r is Ok == ac_builds(interleaved(catalog@)),
        catalog@.len() == 0 ==> r is Ok,
        r matches Ok(a) ==> a.wf() && a.patterns() == interleaved(catalog@),
{
    let patterns = interleaved_patterns(catalog);
    assert(views(patterns@).len() == patterns@.len());
    match new_searcher(&patterns) {
        Ok(searcher) => Ok(CompiledAutomaton { patterns, searcher }),
        Err(_) => Err(ScanError::AutomatonTooLarge),
    }
}

/// Turns raw (automaton index, offset) matches into match records, one for
/// one and in order. Distinct raw matches give distinct records.
pub fn decode_matches(raw: &Vec<(usize, usize)>) -> (r: Vec<MatchRecord>)
    ensures
        raw@.no_duplicates() ==> r@.no_duplicates(),
        r@.len() == raw@.len(),
        forall|i: int| 0 <= i < raw@.len() ==> #[trigger] r@[i] == record_of(raw@[i].0 as int, raw@[i].1 as int),
{
    let mut r: Vec<MatchRecord> = Vec::new();
    let mut i: usize = 0;
    while i < raw.len()
        invariant
            i <= raw@.len(),
            r@.len() == i,
            forall|j: int| 0 <= j < i ==> #[trigger] r@[j] == record_of(raw@[j].0 as int, raw@[j].1 as int),
        decreases raw.len() - i,
    {
        let (k, off) = raw[i];
        let (pattern_index, byte_order) = decode(k);
        r.push(MatchRecord { pattern_index, byte_offset: off, byte_order });
        i = i + 1;
    }
    proof {
        if raw@.no_duplicates() {
            assert forall|a: int, b: int| 0 <= a < r@.len() && 0 <= b < r@.len() && a != b implies r@[a]
                != r@[b] by {
                if r@[a] == r@[b] {
                    lemma_record_of_injective(
                        raw@[a].0 as int,
                        raw@[a].1 as int,
                        raw@[b].0 as int,
                        raw@[b].1 as int,
                    );
                    assert(raw@[a] == raw@[b]);
                }
            }
        }
    }
    r
}

/// Distinct (index, offset) pairs within machine range give distinct records.
proof fn lemma_record_of_injective(k1: int, o1: int, k2: int, o2: int)
    requires
        0 <= k1 <= usize::MAX,
        0 <= k2 <= usize::MAX,
        0 <= o1 <= usize::MAX,
        0 <= o2 <= usize::MAX,
        record_of(k1, o1) == record_of(k2, o2),
    ensures
        k1 == k2,
        o1 == o2,
{
    assert(k1 / 2 == k2 / 2);
    assert(k1 % 2 == k2 % 2);
}

/// The automaton of a catalog of `n` entries holds `2 * n` patterns: at
/// `2 * i` the little-endian encoding of entry `i`, at `2 * i + 1` its
/// big-endian one.
pub proof fn lemma_interleaving(catalog: Seq<Pattern>, i: int)
    requires
        0 <= i < catalog.len(),
    ensures
        interleaved(catalog).len() == 2 * catalog.len(),
        interleaved(catalog)[2 * i] == catalog[i].bytes.byte_view(Endianness::LittleEndian),
        interleaved(catalog)[2 * i + 1] == catalog[i].bytes.byte_view(Endianness::BigEndian),
{
    assert((2 * i) / 2 == i);
    assert((2 * i + 1) / 2 == i);
}

/// Decoding undoes the interleaving: the index of entry `i` in byte order
/// `e` decodes to `i` and `e`, and every index is the index of what it
/// decodes to.
pub proof fn lemma_decode_inverts_interleaving(i: int, e: Endianness, k: int)
    requires
        0 <= i,
        0 <= k,
    ensures
        index_of(i, e) / 2 == i,
        order_of_index(index_of(i, e)) == e,
        index_of(k / 2, order_of_index(k)) == k,
{
}

/// A pattern copied into a byte view at some offset is reported there, under
/// its catalog entry and byte order, whatever surrounds it.
pub proof fn lemma_embedded_pattern_found(
    pats: Seq<Seq<u8>>,
    prefix: Seq<u8>,
    suffix: Seq<u8>,
    k: int,
    recs: Seq<MatchRecord>,
)
    requires
        0 <= k < pats.len(),
        scan_result(pats, prefix + pats[k] + suffix, recs),
    ensures
        exists|i: int| 0 <= i < recs.len() && #[trigger] recs[i] == record_of(k, prefix.len() as int),
{
    let hay = prefix + pats[k] + suffix;
    assert(hay.subrange(prefix.len() as int, (prefix.len() + pats[k].len()) as int) =~= pats[k]);
    assert(is_occurrence(pats, k, prefix.len() as int, hay));
}

/// Where one pattern's occurrence lies within another's, both are reported,
/// each on its own.
pub proof fn lemma_overlapping_matches_reported(
    pats: Seq<Seq<u8>>,
    hay: Seq<u8>,
    inner: int,
    inner_off: int,
    outer: int,
    outer_off: int,
    recs: Seq<MatchRecord>,
)
    requires
        is_occurrence(pats, inner, inner_off, hay),
        is_occurrence(pats, outer, outer_off, hay),
        outer_off <= inner_off,
        inner_off + pats[inner].len() <= outer_off + pats[outer].len(),
        scan_result(pats, hay, recs),
    ensures
        exists|i: int| 0 <= i < recs.len() && #[trigger] recs[i] == record_of(inner, inner_off),
        exists|i: int| 0 <= i < recs.len() && #[trigger] recs[i] == record_of(outer, outer_off),
{
}

/// A table's encoding in either byte order is found where it is embedded,
/// and reported under that byte order, although the other encoding of the
/// same table is a pattern too.
pub proof fn lemma_each_byte_order_found(
    catalog: Seq<Pattern>,
    pats: Seq<Seq<u8>>,
    i: int,
    e: Endianness,
    prefix: Seq<u8>,
    suffix: Seq<u8>,
    recs: Seq<MatchRecord>,
)
    requires
        pats == interleaved(catalog),
        0 <= i < catalog.len(),
        scan_result(pats, prefix + catalog[i].bytes.byte_view(e) + suffix, recs),
    ensures
        exists|j: int|
            0 <= j < recs.len() && #[trigger] recs[j] == (MatchRecord {
                pattern_index: i as usize,
                byte_offset: prefix.len() as usize,
                byte_order: e,
            }),
{
    let k = index_of(i, e);
    assert(k / 2 == i);
    assert(pats[k] == catalog[i].bytes.byte_view(e));
    lemma_embedded_pattern_found(pats, prefix, suffix, k, recs);
}

/// Reports every match of the automaton's patterns in `bytes`, overlapping
/// ones included, each with its catalog entry, byte offset and byte order.
pub fn scan(automaton: &CompiledAutomaton, bytes: &[u8]) -> (r: Vec<MatchRecord>)
    requires
        automaton.wf(),
    ensures
        scan_result(automaton.patterns(), bytes@, r@),
{
    let raw = find_overlapping(&automaton.searcher, bytes);
    let r = decode_matches(&raw);
    let n_patterns = automaton.patterns.len();
    let n_bytes = bytes.len();
    proof {
        let pats = automaton.patterns();
        assert forall|i: int| 0 <= i < r@.len() implies is_occurrence(
            pats,
            index_of(#[trigger] r@[i].pattern_index as int, r@[i].byte_order),
            r@[i].byte_offset as int,
            bytes@,
        ) by {
            let k = raw@[i].0 as int;
            assert(is_occurrence(pats, k, raw@[i].1 as int, bytes@));
            assert(index_of(k / 2, order_of_index(k)) == k);
        }
        assert forall|k: int, off: int|
            is_occurrence(pats, k, off, bytes@) implies exists|i: int|
                0 <= i < r@.len() && #[trigger] r@[i] == record_of(k, off) by {
            assert(k < n_patterns && off <= n_bytes);
            assert(exists|i: int| 0 <= i < raw@.len() && #[trigger] raw@[i] == (k as usize, off as usize));
            let i = choose|i: int| 0 <= i < raw@.len() && #[trigger] raw@[i] == (k as usize, off as usize);
            assert(raw@[i].0 as int == k && raw@[i].1 as int == off);
            assert(r@[i] == record_of(raw@[i].0 as int, raw@[i].1 as int));
        }
    }
    r
}

} // verus!
