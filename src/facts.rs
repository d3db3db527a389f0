//! The fact store's rules: triples with provenance, a deterministic content
//! hash, confidence gating, deduplication and query filters. Storage itself
//! (the vector database) is reached by the caller, who hands the outcomes of
//! its lookups back in.
use vstd::prelude::*;

use crate::env::{trim, trimmed};
use crate::text::copy_str;

verus! {

/// Confidence is in thousandths: `0..=1000` is `[0, 1]`.
pub const CONFIDENCE_ONE: u32 = 1000;

/// Default number of facts a query returns.
pub const DEFAULT_QUERY_LIMIT: usize = 100;

/// Where a fact was observed.
#[derive(Debug, Clone)]
pub struct SourceAnchor {
    pub doc_id: Option<String>,
    pub page: Option<u32>,
    pub region_id: Option<String>,
    pub vt_ref: Option<String>,
    pub path_line: Option<String>,
}

impl SourceAnchor {
    pub fn new() -> (r: Self)
        ensures
            r.doc_id is None,
            r.page is None,
            r.region_id is None,
            r.vt_ref is None,
            r.path_line is None,
    {
        SourceAnchor { doc_id: None, page: None, region_id: None, vt_ref: None, path_line: None }
    }

    pub fn with_doc(self, doc_id: String, page: Option<u32>) -> (r: Self)
        ensures
            r.doc_id == Some(doc_id),
            r.page == page,
            r.region_id == self.region_id,
            r.vt_ref == self.vt_ref,
            r.path_line == self.path_line,
    {
        SourceAnchor { doc_id: Some(doc_id), page, ..self }
    }

    pub fn with_region(self, region_id: String, vt_ref: Option<String>) -> (r: Self)
        ensures
            r.region_id == Some(region_id),
            r.vt_ref == vt_ref,
            r.doc_id == self.doc_id,
            r.page == self.page,
            r.path_line == self.path_line,
    {
        SourceAnchor { region_id: Some(region_id), vt_ref, ..self }
    }

    pub fn with_code(self, path_line: String) -> (r: Self)
        ensures
            r.path_line == Some(path_line),
            r.doc_id == self.doc_id,
            r.page == self.page,
            r.region_id == self.region_id,
            r.vt_ref == self.vt_ref,
    {
        SourceAnchor { path_line: Some(path_line), ..self }
    }
}

impl Default for SourceAnchor {
    fn default() -> (r: Self)
        ensures
            r.doc_id is None,
            r.page is None,
            r.region_id is None,
    {
        SourceAnchor::new()
    }
}

/// Decimal digits of `n`, as `u32::to_string` writes them.
pub open spec fn decimal(n: nat) -> Seq<char>
    decreases n,
{
    if n < 10 {
        seq![digit_char(n)]
    } else {
        decimal(n / 10).push(digit_char(n % 10))
    }
}

pub open spec fn digit_char(d: nat) -> char {
    if d == 0 { '0' } else if d == 1 { '1' } else if d == 2 { '2' } else if d == 3 { '3' }
    else if d == 4 { '4' } else if d == 5 { '5' } else if d == 6 { '6' } else if d == 7 { '7' }
    else if d == 8 { '8' } else { '9' }
}

fn digit_str(d: u32) -> (r: &'static str)
    requires
        d < 10,
    ensures
        r@ == seq![digit_char(d as nat)],
{
    proof {
        reveal_strlit("0");
        reveal_strlit("1");
        reveal_strlit("2");
        reveal_strlit("3");
        reveal_strlit("4");
        reveal_strlit("5");
        reveal_strlit("6");
        reveal_strlit("7");
        reveal_strlit("8");
        reveal_strlit("9");
    }
    let r = if d == 0 { "0" } else if d == 1 { "1" } else if d == 2 { "2" } else if d == 3 { "3" }
    else if d == 4 { "4" } else if d == 5 { "5" } else if d == 6 { "6" } else if d == 7 { "7" }
    else if d == 8 { "8" } else { "9" };
    assert(r@ =~= seq![digit_char(d as nat)]);
    r
}

/// `n` in decimal.
pub fn decimal_string(n: u32) -> (r: String)
    ensures
        r@ == decimal(n as nat),
    decreases n,
{
    if n < 10 {
        String::from_str(digit_str(n))
    } else {
        let mut s = decimal_string(n / 10);
        s.append(digit_str(n % 10));
        s
    }
}

/// `n` in decimal.
pub fn decimal_string_usize(n: usize) -> (r: String)
    ensures
        r@ == decimal(n as nat),
    decreases n,
{
    if n < 10 {
        String::from_str(digit_str(n as u32))
    } else {
        let mut s = decimal_string_usize(n / 10);
        s.append(digit_str((n % 10) as u32));
        s
    }
}

/// The text that is hashed: `subject|predicate|object|` followed by the
/// anchor's doc id, page and region id, each when present; subject,
/// predicate, object and the two ids are trimmed of surrounding whitespace.
pub open spec fn hash_preimage(
    subject: Seq<char>,
    predicate: Seq<char>,
    object: Seq<char>,
    anchor: SourceAnchor,
) -> Seq<char> {
    trimmed(subject) + seq!['|'] + trimmed(predicate) + seq!['|'] + trimmed(object) + seq!['|']
        + (match anchor.doc_id {
        Some(d) => trimmed(d@),
        None => seq![],
    }) + (match anchor.page {
        Some(p) => decimal(p as nat),
        None => seq![],
    }) + (match anchor.region_id {
        Some(r) => trimmed(r@),
        None => seq![],
    })
}

/// Lowercase hex SHA-256 digest of the UTF-8 encoding of the characters.
pub uninterp spec fn sha256_hex_of(s: Seq<char>) -> Seq<char>;

/// Relies on `sha2::Sha256::digest` and the `LowerHex` formatting of its
/// 32-byte output: a function of the input alone, 64 hex digits.
#[verifier::external_body]
fn sha256_hex(s: &String) -> (r: String)
    ensures
        r@ == sha256_hex_of(s@),
        r@.len() == 64,
{
    format!("{:x}", <sha2::Sha256 as sha2::Digest>::digest(s.as_bytes()))
}

/// Relies on `uuid::Uuid::new_v4` and its hyphenated `Display`: a random id.
#[verifier::external_body]
fn new_uuid() -> (r: String)
    ensures
        r@.len() == 36,
{
    uuid::Uuid::new_v4().to_string()
}

/// Relies on `chrono::Utc::now` and `timestamp_millis`: the current time.
#[verifier::external_body]
fn now_millis() -> (r: i64) {
    chrono::Utc::now().timestamp_millis()
}

/// An RDF-style triple with provenance; `confidence` in thousandths,
/// `observed_at` in milliseconds since the Unix epoch.
#[derive(Debug, Clone)]
pub struct Fact {
    pub id: String,
    pub subject: String,
    pub predicate: String,
    pub object: String,
    pub datatype: Option<String>,
    pub source_doc: Option<String>,
    pub source_anchor: SourceAnchor,
    pub confidence: u32,
    pub observed_at: i64,
    pub hash: String,
}

/// The hash a fact with these contents carries.
pub open spec fn content_hash(
    subject: Seq<char>,
    predicate: Seq<char>,
    object: Seq<char>,
    anchor: SourceAnchor,
) -> Seq<char> {
    sha256_hex_of(hash_preimage(subject, predicate, object, anchor))
}

/// `x` clamped to `[0, 1000]`.
pub open spec fn clamp_confidence(x: i64) -> u32 {
    if x < 0 {
        0
    } else if x > CONFIDENCE_ONE {
        CONFIDENCE_ONE
    } else {
        x as u32
    }
}

fn copy_opt(s: &Option<String>) -> (r: Option<String>)
    ensures
        r is Some <==> s is Some,
        r matches Some(x) ==> x@ == s->Some_0@,
{
    match s {
        Some(x) => Some(copy_str(x)),
        None => None,
    }
}

impl Fact {
    /// The text that is hashed for these contents.
    pub fn hash_input(subject: &str, predicate: &str, object: &str, anchor: &SourceAnchor) -> (r:
        String)
        ensures
            r@ == hash_preimage(subject@, predicate@, object@, *anchor),
    {
        let mut s = trim(subject);
        let bar = "|";
        proof {
            reveal_strlit("|");
            assert(bar@ =~= seq!['|']);
        }
        s.append(bar);
        let p = trim(predicate);
        s.append(p.as_str());
        s.append(bar);
        let o = trim(object);
        s.append(o.as_str());
        s.append(bar);
        let ghost base = s@;
        match &anchor.doc_id {
            Some(d) => {
                let t = trim(d.as_str());
                s.append(t.as_str());
            },
            None => {},
        }
        let ghost with_doc = s@;
        match anchor.page {
            Some(p) => {
                let ps = decimal_string(p);
                s.append(ps.as_str());
            },
            None => {},
        }
        let ghost with_page = s@;
        match &anchor.region_id {
            Some(rg) => {
                let t = trim(rg.as_str());
                s.append(t.as_str());
            },
            None => {},
        }
        assert(s@ =~= hash_preimage(subject@, predicate@, object@, *anchor));
        s
    }

    /// SHA-256 (lowercase hex) of the hash input.
    pub fn compute_hash(subject: &str, predicate: &str, object: &str, source_anchor: &SourceAnchor) -> (r:
        String)
        ensures
            r@ == content_hash(subject@, predicate@, object@, *source_anchor),
            r@.len() == 64,
    {
        let input = Fact::hash_input(subject, predicate, object, source_anchor);
        sha256_hex(&input)
    }

    /// A fact with these contents, given its id and observation time;
    /// confidence is clamped to `[0, 1000]`.
    pub fn with_identity(
        id: String,
        subject: String,
        predicate: String,
        object: String,
        source_anchor: SourceAnchor,
        confidence: i64,
        observed_at: i64,
    ) -> (r: Self)
        ensures
            r.id == id,
            r.subject == subject,
            r.predicate == predicate,
            r.object == object,
            r.source_anchor == source_anchor,
            r.datatype is None,
            r.source_doc is Some <==> source_anchor.doc_id is Some,
            r.source_doc matches Some(d) ==> d@ == source_anchor.doc_id->Some_0@,
            r.confidence == clamp_confidence(confidence),
            r.observed_at == observed_at,
            r.hash@ == content_hash(subject@, predicate@, object@, source_anchor),
            r.hash@.len() == 64,
    {
        let hash = Fact::compute_hash(
            subject.as_str(),
            predicate.as_str(),
            object.as_str(),
            &source_anchor,
        );
        let source_doc = copy_opt(&source_anchor.doc_id);
        let c: u32 = if confidence < 0 {
            0
        } else if confidence > CONFIDENCE_ONE as i64 {
            CONFIDENCE_ONE
        } else {
            confidence as u32
        };
        Fact {
            id,
            subject,
            predicate,
            object,
            datatype: None,
            source_doc,
            source_anchor,
            confidence: c,
            observed_at,
            hash,
        }
    }

    /// A new fact with a fresh random id, observed now.
    pub fn new(
        subject: String,
        predicate: String,
        object: String,
        source_anchor: SourceAnchor,
        confidence: i64,
    ) -> (r: Self)
        ensures
            r.subject == subject,
            r.predicate == predicate,
            r.object == object,
            r.source_anchor == source_anchor,
            r.id@.len() == 36,
            r.confidence == clamp_confidence(confidence),
            r.hash@ == content_hash(subject@, predicate@, object@, source_anchor),
            r.hash@.len() == 64,
            r.source_doc is Some <==> source_anchor.doc_id is Some,
            r.source_doc matches Some(d) ==> d@ == source_anchor.doc_id->Some_0@,
    {
        let id = new_uuid();
        let observed_at = now_millis();
        Fact::with_identity(id, subject, predicate, object, source_anchor, confidence, observed_at)
    }

    /// The confidence reaches `threshold` (both in thousandths).
    pub fn meets_threshold(&self, threshold: u32) -> (r: bool)
        ensures
            r == (self.confidence >= threshold),
    {
        self.confidence >= threshold
    }
}

/// Two facts that agree on subject, predicate, object and anchor carry the
/// same hash, whatever their ids, observation times and confidences.
pub proof fn lemma_hash_ignores_identity(a: Fact, b: Fact)
    requires
        a.subject@ == b.subject@,
        a.predicate@ == b.predicate@,
        a.object@ == b.object@,
        a.source_anchor == b.source_anchor,
        a.hash@ == content_hash(a.subject@, a.predicate@, a.object@, a.source_anchor),
        b.hash@ == content_hash(b.subject@, b.predicate@, b.object@, b.source_anchor),
    ensures
        a.hash@ == b.hash@,
{
}

/// A fact insert request; `confidence` in thousandths, possibly out of range.
#[derive(Debug, Clone)]
pub struct FactInsertRequest {
    pub subject: String,
    pub predicate: String,
    pub object: String,
    pub datatype: Option<String>,
    pub source_doc: Option<String>,
    pub source_anchor: SourceAnchor,
    pub confidence: i64,
}

/// Answer to an insert.
#[derive(Debug, Clone)]
pub struct FactInsertResponse {
    pub fact_id: String,
    pub hash: String,
    pub duplicate: bool,
}

/// Error envelope of the fact endpoints.
#[derive(Debug, Clone)]
pub struct FactsApiError {
    pub code: String,
    pub message: String,
}

impl FactsApiError {
    pub fn new(code: &str, message: &str) -> (r: Self)
        ensures
            r.code@ == code@,
            r.message@ == message@,
    {
        FactsApiError { code: String::from_str(code), message: String::from_str(message) }
    }
}

/// The error code of requests the caller can fix.
pub open spec fn validation_code() -> Seq<char> {
    seq!['V', 'A', 'L', 'I', 'D', 'A', 'T', 'I', 'O', 'N', '_', 'E', 'R', 'R', 'O', 'R']
}

fn validation_error(message: &str) -> (r: FactsApiError)
    ensures
        r.code@ == validation_code(),
{
    let code = "VALIDATION_ERROR";
    proof {
        reveal_strlit("VALIDATION_ERROR");
        assert(code@ =~= validation_code());
    }
    FactsApiError::new(code, message)
}

/// An insert request is acceptable: non-empty triple and confidence in `[0, 1]`.
pub open spec fn insert_is_valid(r: FactInsertRequest) -> bool {
    r.subject@.len() > 0 && r.predicate@.len() > 0 && r.object@.len() > 0 && 0 <= r.confidence
        <= CONFIDENCE_ONE
}

/// Rejects an empty subject, predicate or object, or a confidence outside `[0, 1]`.
pub fn validate_insert(request: &FactInsertRequest) -> (r: Result<(), FactsApiError>)
    ensures
        r is Ok <==> insert_is_valid(*request),
        r matches Err(e) ==> e.code@ == validation_code(),
{
    if request.subject.unicode_len() == 0 {
        return Err(validation_error("Subject cannot be empty"));
    }
    if request.predicate.unicode_len() == 0 {
        return Err(validation_error("Predicate cannot be empty"));
    }
    if request.object.unicode_len() == 0 {
        return Err(validation_error("Object cannot be empty"));
    }
    if request.confidence < 0 || request.confidence > CONFIDENCE_ONE as i64 {
        return Err(validation_error("Confidence must be between 0.0 and 1.0"));
    }
    Ok(())
}

/// Fact store settings; `confidence_threshold` in thousandths.
#[derive(Debug, Clone)]
pub struct FactStoreConfig {
    pub collection_name: String,
    pub dedup_enabled: bool,
    pub confidence_threshold: u32,
    pub max_facts_per_query: usize,
    pub vector_size: usize,
}

impl Default for FactStoreConfig {
    fn default() -> (r: Self)
        ensures
            r.dedup_enabled,
            r.confidence_threshold == 800,
            r.max_facts_per_query == 100,
            r.vector_size == 1024,
    {
        FactStoreConfig {
            collection_name: String::from_str("facts"),
            dedup_enabled: true,
            confidence_threshold: 800,
            max_facts_per_query: 100,
            vector_size: 1024,
        }
    }
}

/// What an insert does once the duplicate lookup (if any) is known.
#[derive(Debug, Clone)]
pub enum InsertDecision {
    /// A fact with the same hash exists: answer with its id, write nothing.
    Duplicate(FactInsertResponse),
    /// Below the confidence threshold.
    Rejected(FactsApiError),
    /// Write the fact, then answer with the response.
    Write(Fact, FactInsertResponse),
}

/// The first stored id whose hash is `h`.
pub open spec fn hash_lookup(store: Seq<(Seq<char>, Seq<char>)>, h: Seq<char>) -> Option<Seq<char>>
    decreases store.len(),
{
    if store.len() == 0 {
        None
    } else if store[0].1 == h {
        Some(store[0].0)
    } else {
        hash_lookup(store.drop_first(), h)
    }
}

/// Whether a duplicate lookup must precede the write.
pub fn needs_duplicate_check(config: &FactStoreConfig) -> (r: bool)
    ensures
        r == config.dedup_enabled,
{
    config.dedup_enabled
}

/// Decides an insert of `fact` given the id of an existing fact with the
/// same hash (as the store answered, if it was asked): a duplicate when dedup
/// is on and one exists; else a rejection below the threshold; else a write.
pub fn decide_insert(config: &FactStoreConfig, fact: Fact, existing: Option<String>) -> (r:
    InsertDecision)
    ensures
        config.dedup_enabled && existing is Some ==> (r matches InsertDecision::Duplicate(resp)
            && resp.duplicate && resp.fact_id == existing->Some_0 && resp.hash@ == fact.hash@),
        !(config.dedup_enabled && existing is Some) && fact.confidence < config.confidence_threshold
            ==> (r matches InsertDecision::Rejected(e) && e.code@ == validation_code()),
        !(config.dedup_enabled && existing is Some) && fact.confidence
            >= config.confidence_threshold ==> (r matches InsertDecision::Write(f, resp) && f
            == fact && !resp.duplicate && resp.fact_id@ == fact.id@ && resp.hash@ == fact.hash@),
{
    if config.dedup_enabled {
        match existing {
            Some(id) => {
                let hash = copy_str(&fact.hash);
                return InsertDecision::Duplicate(
                    FactInsertResponse { fact_id: id, hash, duplicate: true },
                );
            },
            None => {},
        }
    }
    if !fact.meets_threshold(config.confidence_threshold) {
        return InsertDecision::Rejected(validation_error("Fact confidence below threshold"));
    }
    let resp = FactInsertResponse {
        fact_id: copy_str(&fact.id),
        hash: copy_str(&fact.hash),
        duplicate: false,
    };
    InsertDecision::Write(fact, resp)
}

/// Store contents after an insert decision: a write appends `(id, hash)`.
pub open spec fn store_after(store: Seq<(Seq<char>, Seq<char>)>, d: InsertDecision) -> Seq<
    (Seq<char>, Seq<char>),
> {
    match d {
        InsertDecision::Write(f, _) => store.push((f.id@, f.hash@)),
        _ => store,
    }
}

/// The id an insert decision answers with, if it answers with one.
pub open spec fn answered_id(d: InsertDecision) -> Option<Seq<char>> {
    match d {
        InsertDecision::Duplicate(r) => Some(r.fact_id@),
        InsertDecision::Write(_, r) => Some(r.fact_id@),
        InsertDecision::Rejected(_) => None,
    }
}

/// The decision `decide_insert` makes, as its contract pins it down.
pub open spec fn insert_outcome(
    config: FactStoreConfig,
    fact: Fact,
    existing: Option<Seq<char>>,
    d: InsertDecision,
) -> bool {
    &&& config.dedup_enabled && existing is Some ==> (d matches InsertDecision::Duplicate(resp)
        && resp.duplicate && resp.fact_id@ == existing->Some_0)
    &&& !(config.dedup_enabled && existing is Some) && fact.confidence
        >= config.confidence_threshold ==> (d matches InsertDecision::Write(f, resp) && f == fact
        && !resp.duplicate && resp.fact_id@ == fact.id@)
    &&& !(config.dedup_enabled && existing is Some) && fact.confidence
        < config.confidence_threshold ==> d is Rejected
}

/// With dedup on, inserting a second fact with the same subject, predicate,
/// object and anchor as a first accepted one is answered as a duplicate with
/// the first answer's id, and writes nothing.
pub proof fn lemma_second_insert_is_duplicate(
    config: FactStoreConfig,
    store: Seq<(Seq<char>, Seq<char>)>,
    first: Fact,
    d1: InsertDecision,
    second: Fact,
    d2: InsertDecision,
)
    requires
        config.dedup_enabled,
        first.hash@ == content_hash(first.subject@, first.predicate@, first.object@, first.source_anchor),
        second.hash@ == content_hash(second.subject@, second.predicate@, second.object@, second.source_anchor),
        first.subject@ == second.subject@,
        first.predicate@ == second.predicate@,
        first.object@ == second.object@,
        first.source_anchor == second.source_anchor,
        insert_outcome(config, first, hash_lookup(store, first.hash@), d1),
        !(d1 is Rejected),
        insert_outcome(config, second, hash_lookup(store_after(store, d1), second.hash@), d2),
    ensures
        d2 matches InsertDecision::Duplicate(resp) && resp.duplicate,
        answered_id(d2) == answered_id(d1),
        store_after(store_after(store, d1), d2) == store_after(store, d1),
{
    if d1 is Write {
        lemma_lookup_push(store, first.id@, first.hash@);
    }
}

proof fn lemma_lookup_push(store: Seq<(Seq<char>, Seq<char>)>, id: Seq<char>, h: Seq<char>)
    requires
        hash_lookup(store, h) is None,
    ensures
        hash_lookup(store.push((id, h)), h) == Some(id),
    decreases store.len(),
{
    if store.len() > 0 {
        assert(store.push((id, h)).drop_first() =~= store.drop_first().push((id, h)));
        lemma_lookup_push(store.drop_first(), id, h);
    }
}

/// A fact query; `min_confidence` in thousandths.
#[derive(Debug, Clone)]
pub struct FactQuery {
    pub subject: Option<String>,
    pub predicate: Option<String>,
    pub object: Option<String>,
    pub source_doc: Option<String>,
    pub min_confidence: Option<u32>,
    pub limit: usize,
}

impl Default for FactQuery {
    fn default() -> (r: Self)
        ensures
            r.subject is None,
            r.predicate is None,
            r.object is None,
            r.source_doc is None,
            r.min_confidence is None,
            r.limit == DEFAULT_QUERY_LIMIT,
    {
        FactQuery {
            subject: None,
            predicate: None,
            object: None,
            source_doc: None,
            min_confidence: None,
            limit: DEFAULT_QUERY_LIMIT,
        }
    }
}

/// Rejects a query whose limit exceeds `max_facts_per_query`.
pub fn validate_query(config: &FactStoreConfig, query: &FactQuery) -> (r: Result<(), FactsApiError>)
    ensures
        r is Ok <==> query.limit <= config.max_facts_per_query,
        r matches Err(e) ==> e.code@ == validation_code(),
{
    if query.limit > config.max_facts_per_query {
        return Err(validation_error("Limit exceeds max_facts_per_query"));
    }
    Ok(())
}

/// A fact satisfies every criterion the query sets.
pub open spec fn fact_matches(q: FactQuery, f: Fact) -> bool {
    &&& (q.subject matches Some(s) ==> f.subject@ == s@)
    &&& (q.predicate matches Some(p) ==> f.predicate@ == p@)
    &&& (q.object matches Some(o) ==> f.object@ == o@)
    &&& (q.source_doc matches Some(d) ==> (f.source_doc matches Some(fd) && fd@ == d@))
    &&& (q.min_confidence matches Some(m) ==> f.confidence >= m)
}

fn opt_eq(want: &Option<String>, have: &str) -> (r: bool)
    ensures
        r == (want matches Some(w) ==> have@ == w@),
{
    match want {
        Some(w) => crate::text::str_eq(have, w.as_str()),
        None => true,
    }
}

/// Whether `fact` satisfies every criterion of `query`.
pub fn matches_query(query: &FactQuery, fact: &Fact) -> (r: bool)
    ensures
        r == fact_matches(*query, *fact),
{
    let doc_ok = match &query.source_doc {
        None => true,
        Some(d) => match &fact.source_doc {
            Some(fd) => crate::text::str_eq(fd.as_str(), d.as_str()),
            None => false,
        },
    };
    let conf_ok = match query.min_confidence {
        None => true,
        Some(m) => fact.confidence >= m,
    };
    opt_eq(&query.subject, fact.subject.as_str()) && opt_eq(&query.predicate, fact.predicate.as_str())
        && opt_eq(&query.object, fact.object.as_str()) && doc_ok && conf_ok
}

/// Effective result bound: the query's limit capped at `max_facts_per_query`.
pub fn effective_limit(config: &FactStoreConfig, query: &FactQuery) -> (r: usize)
    ensures
        r == (if query.limit < config.max_facts_per_query {
            query.limit
        } else {
            config.max_facts_per_query
        }),
{
    if query.limit < config.max_facts_per_query {
        query.limit
    } else {
        config.max_facts_per_query
    }
}

/// Keeps the hits that satisfy the query, in order, up to the effective limit.
pub fn filter_hits(config: &FactStoreConfig, query: &FactQuery, hits: Vec<Fact>) -> (r: Vec<Fact>)
    ensures
        r@ == crate::assembler::keep_first(
            matching_facts(*query, hits@),
            effective_limit_spec(*config, *query) as nat,
        ),
{
    let limit = effective_limit(config, query);
    let ghost all = hits@;
    let n = hits.len();
    let mut rest = hits;
    let mut out: Vec<Fact> = Vec::new();
    let mut j: usize = 0;
    while j < n
        invariant
            n == all.len(),
            j <= n,
            rest@ == all.subrange(j as int, n as int),
            limit == effective_limit_spec(*config, *query),
            out@ == crate::assembler::keep_first(
                matching_facts(*query, all.subrange(0, j as int)),
                limit as nat,
            ),
        decreases n - j,
    {
        let f = rest.remove(0);
        assert(f == all[j as int]);
        assert(rest@ =~= all.subrange(j + 1, n as int));
        let ghost pre = all.subrange(0, j as int);
        let ghost post = all.subrange(0, j + 1);
        assert(post.drop_last() =~= pre);
        assert(post.last() == f);
        let ghost m = matching_facts(*query, pre);
        if matches_query(query, &f) {
            if out.len() < limit {
                out.push(f);
                assert(out@ =~= crate::assembler::keep_first(m.push(f), limit as nat));
            } else {
                assert(out@ =~= crate::assembler::keep_first(m.push(f), limit as nat));
            }
        }
        j = j + 1;
    }
    assert(all.subrange(0, n as int) =~= all);
    out
}

/// The facts of `s` that satisfy the query, in order.
pub open spec fn matching_facts(q: FactQuery, s: Seq<Fact>) -> Seq<Fact>
    decreases s.len(),
{
    if s.len() == 0 {
        seq![]
    } else if fact_matches(q, s.last()) {
        matching_facts(q, s.drop_last()).push(s.last())
    } else {
        matching_facts(q, s.drop_last())
    }
}

pub open spec fn effective_limit_spec(config: FactStoreConfig, query: FactQuery) -> usize {
    if query.limit < config.max_facts_per_query {
        query.limit
    } else {
        config.max_facts_per_query
    }
}

/// A fact rebuilt from a stored record; `None` when a required field is missing.
pub fn fact_from_record(
    id: Option<String>,
    subject: Option<String>,
    predicate: Option<String>,
    object: Option<String>,
    source_doc: Option<String>,
    confidence: Option<u32>,
    observed_at: Option<i64>,
    hash: Option<String>,
) -> (r: Option<Fact>)
    ensures
        r is Some <==> (id is Some && subject is Some && predicate is Some && object is Some
            && confidence is Some && observed_at is Some && hash is Some),
        r matches Some(f) ==> f.id == id->Some_0 && f.subject == subject->Some_0 && f.predicate
            == predicate->Some_0 && f.object == object->Some_0 && f.source_doc == source_doc
            && f.hash == hash->Some_0 && f.observed_at == observed_at->Some_0 && f.confidence
            == clamp_confidence(confidence->Some_0 as i64),
{
    match (id, subject, predicate, object, confidence, observed_at, hash) {
        (Some(id), Some(subject), Some(predicate), Some(object), Some(c), Some(t), Some(hash)) => {
            let confidence: u32 = if c > CONFIDENCE_ONE {
                CONFIDENCE_ONE
            } else {
                c
            };
            Some(
                Fact {
                    id,
                    subject,
                    predicate,
                    object,
                    datatype: None,
                    source_doc,
                    source_anchor: SourceAnchor::new(),
                    confidence,
                    observed_at: t,
                    hash,
                },
            )
        },
        _ => None,
    }
}

} // verus!
