//! Vision request and result models, and their validation rules.
use vstd::prelude::*;

use std::collections::HashMap;

use crate::text::{copy_str, str_eq};

verus! {

/// Most regions a search may ask for.
pub const MAX_TOP_K: usize = 50;

/// Default number of regions a search returns.
pub const DEFAULT_TOP_K: usize = 12;

/// Bounding box in pixels, origin top-left.
#[derive(Debug, Clone, Copy, PartialEq, Eq, Structural)]
pub struct BoundingBox {
    pub x: u32,
    pub y: u32,
    pub w: u32,
    pub h: u32,
}

impl BoundingBox {
    pub open spec fn within(&self, page_width: u32, page_height: u32) -> bool {
        self.x + self.w <= page_width && self.y + self.h <= page_height
    }

    /// The box lies within the page (an overflowing edge is outside).
    pub fn is_valid(&self, page_width: u32, page_height: u32) -> (r: bool)
        ensures
            r == self.within(page_width, page_height),
    {
        let right = self.x.checked_add(self.w);
        let bottom = self.y.checked_add(self.h);
        match (right, bottom) {
            (Some(r), Some(b)) => r <= page_width && b <= page_height,
            _ => false,
        }
    }

    /// `Ok` exactly when the box lies within the page.
    pub fn validate(&self, page_width: u32, page_height: u32) -> (r: Result<(), String>)
        ensures
            r is Ok <==> self.within(page_width, page_height),
    {
        if !self.is_valid(page_width, page_height) {
            return Err(String::from_str("Bounding box out of bounds"));
        }
        Ok(())
    }
}

/// OCR decoding fidelity.
#[derive(Debug, Clone, Copy, PartialEq, Eq, Structural)]
pub enum FidelityLevel {
    /// `20x`: coarse skim.
    Fast,
    /// `10x`: balanced, the default.
    Balanced,
    /// `5x`: tables and code blocks.
    High,
    /// `1x`: exact decode.
    Exact,
}

pub open spec fn fidelity_tag(f: FidelityLevel) -> Seq<char> {
    match f {
        FidelityLevel::Fast => seq!['2', '0', 'x'],
        FidelityLevel::Balanced => seq!['1', '0', 'x'],
        FidelityLevel::High => seq!['5', 'x'],
        FidelityLevel::Exact => seq!['1', 'x'],
    }
}

impl Default for FidelityLevel {
    fn default() -> (r: Self)
        ensures
            r == FidelityLevel::Balanced,
    {
        FidelityLevel::Balanced
    }
}

impl FidelityLevel {
    /// The tag: `20x`, `10x`, `5x` or `1x`.
    pub fn as_str(&self) -> (r: &'static str)
        ensures
            r@ == fidelity_tag(*self),
    {
        proof {
            reveal_strlit("20x");
            reveal_strlit("10x");
            reveal_strlit("5x");
            reveal_strlit("1x");
        }
        match self {
            FidelityLevel::Fast => "20x",
            FidelityLevel::Balanced => "10x",
            FidelityLevel::High => "5x",
            FidelityLevel::Exact => "1x",
        }
    }

    /// The level whose tag is `tag`, if any.
    pub fn from_tag(tag: &str) -> (r: Option<FidelityLevel>)
        ensures
            r matches Some(f) ==> fidelity_tag(f) == tag@,
            r is None ==> forall|f: FidelityLevel| fidelity_tag(f) != tag@,
    {
        if str_eq(tag, FidelityLevel::Fast.as_str()) {
            Some(FidelityLevel::Fast)
        } else if str_eq(tag, FidelityLevel::Balanced.as_str()) {
            Some(FidelityLevel::Balanced)
        } else if str_eq(tag, FidelityLevel::High.as_str()) {
            Some(FidelityLevel::High)
        } else if str_eq(tag, FidelityLevel::Exact.as_str()) {
            Some(FidelityLevel::Exact)
        } else {
            assert forall|f: FidelityLevel| fidelity_tag(f) != tag@ by {
                match f {
                    FidelityLevel::Fast => {},
                    FidelityLevel::Balanced => {},
                    FidelityLevel::High => {},
                    FidelityLevel::Exact => {},
                }
            }
            None
        }
    }
}

/// Kind of a region.
#[derive(Debug, Clone, Copy, PartialEq, Eq, Structural)]
pub enum RegionType {
    Table,
    Figure,
    Code,
    Text,
}

/// A decoded region as the contracts see it.
pub struct DecodedRegionView {
    pub region_id: Seq<char>,
    pub text: Seq<char>,
    pub fidelity: Seq<char>,
    pub confidence: u32,
}

/// Text decoded from one region; `confidence` is in thousandths.
#[derive(Debug, Clone)]
pub struct DecodedRegion {
    pub region_id: String,
    pub text: String,
    pub fidelity: String,
    pub confidence: u32,
}

impl DecodedRegion {
    pub open spec fn view(&self) -> DecodedRegionView {
        DecodedRegionView {
            region_id: self.region_id@,
            text: self.text@,
            fidelity: self.fidelity@,
            confidence: self.confidence,
        }
    }

    /// A copy with the same contents.
    pub fn duplicate(&self) -> (r: Self)
        ensures
            r.view() == self.view(),
    {
        DecodedRegion {
            region_id: copy_str(&self.region_id),
            text: copy_str(&self.text),
            fidelity: copy_str(&self.fidelity),
            confidence: self.confidence,
        }
    }
}

/// The view of an optional decoded region.
pub open spec fn opt_view(r: Option<DecodedRegion>) -> Option<DecodedRegionView> {
    match r {
        Some(d) => Some(d.view()),
        None => None,
    }
}

/// Region search request.
#[derive(Debug, Clone)]
pub struct VisionSearchRequest {
    pub query: String,
    pub top_k: usize,
    pub filters: HashMap<String, String>,
}

/// Decode request.
#[derive(Debug, Clone)]
pub struct DecodeRequest {
    pub region_ids: Vec<String>,
    pub fidelity: FidelityLevel,
}

/// Document indexing request.
#[derive(Debug, Clone)]
pub struct IndexRequest {
    pub doc_url: String,
    pub metadata: HashMap<String, String>,
    pub force_reindex: bool,
}

/// Indexing job status.
#[derive(Debug, Clone, Copy, PartialEq, Eq, Structural)]
pub enum JobStatus {
    Queued,
    Running,
    Succeeded,
    Failed,
}

/// Indexing response.
#[derive(Debug, Clone)]
pub struct IndexResponse {
    pub job_id: String,
    pub status: JobStatus,
}

/// Why a vision request was refused before any upstream call.
#[derive(Debug, Clone, Copy, PartialEq, Eq, Structural)]
pub enum VisionRequestError {
    EmptyQuery,
    TopKTooLarge,
    NoRegions,
    TooManyRegions,
    EmptyDocUrl,
    EmptyJobId,
}

/// An indexing request needs a non-empty document URL.
pub fn validate_index(request: &IndexRequest) -> (r: Result<(), VisionRequestError>)
    ensures
        request.doc_url@.len() == 0 ==> r == Err::<(), VisionRequestError>(
            VisionRequestError::EmptyDocUrl,
        ),
        r is Ok <==> request.doc_url@.len() > 0,
{
    if request.doc_url.unicode_len() == 0 {
        return Err(VisionRequestError::EmptyDocUrl);
    }
    Ok(())
}

/// A job status query needs a non-empty job id.
pub fn validate_job_id(job_id: &str) -> (r: Result<(), VisionRequestError>)
    ensures
        job_id@.len() == 0 ==> r == Err::<(), VisionRequestError>(VisionRequestError::EmptyJobId),
        r is Ok <==> job_id@.len() > 0,
{
    if job_id.unicode_len() == 0 {
        return Err(VisionRequestError::EmptyJobId);
    }
    Ok(())
}

/// A search needs a non-empty query and `top_k <= 50`.
pub fn validate_search(request: &VisionSearchRequest) -> (r: Result<(), VisionRequestError>)
    ensures
        request.query@.len() == 0 ==> r == Err::<(), VisionRequestError>(
            VisionRequestError::EmptyQuery,
        ),
        request.query@.len() > 0 && request.top_k > MAX_TOP_K ==> r == Err::<
            (),
            VisionRequestError,
        >(VisionRequestError::TopKTooLarge),
        r is Ok <==> request.query@.len() > 0 && request.top_k <= MAX_TOP_K,
{
    if request.query.unicode_len() == 0 {
        return Err(VisionRequestError::EmptyQuery);
    }
    if request.top_k > MAX_TOP_K {
        return Err(VisionRequestError::TopKTooLarge);
    }
    Ok(())
}

/// A decode needs between 1 and `max_regions` region ids.
pub fn validate_decode(region_ids: &Vec<String>, max_regions: usize) -> (r: Result<
    (),
    VisionRequestError,
>)
    ensures
        region_ids@.len() == 0 ==> r == Err::<(), VisionRequestError>(
            VisionRequestError::NoRegions,
        ),
        region_ids@.len() > max_regions && region_ids@.len() > 0 ==> r == Err::<
            (),
            VisionRequestError,
        >(VisionRequestError::TooManyRegions),
        r is Ok <==> 0 < region_ids@.len() <= max_regions,
{
    if region_ids.len() == 0 {
        return Err(VisionRequestError::NoRegions);
    }
    if region_ids.len() > max_regions {
        return Err(VisionRequestError::TooManyRegions);
    }
    Ok(())
}

pub open spec fn ascii_lower(c: char) -> char {
    if 'A' <= c && c <= 'Z' {
        ((c as u8) + 32) as char
    } else {
        c
    }
}

/// The header value, compared case-insensitively, is one of
/// `true`, `1`, `yes`, `on`.
pub open spec fn is_truthy(v: Seq<char>) -> bool {
    let l = v.map_values(|c: char| ascii_lower(c));
    l == seq!['t', 'r', 'u', 'e'] || l == seq!['1'] || l == seq!['y', 'e', 's'] || l == seq![
        'o',
        'n',
    ]
}

fn lower_ascii_char(c: char) -> (r: char)
    ensures
        r == ascii_lower(c),
{
    if 'A' <= c && c <= 'Z' {
        ((c as u8) + 32) as char
    } else {
        c
    }
}

fn equals_lowered(v: &str, word: &str) -> (r: bool)
    ensures
        r == (v@.map_values(|c: char| ascii_lower(c)) == word@),
{
    let n = v.unicode_len();
    let m = word.unicode_len();
    let ghost l = v@.map_values(|c: char| ascii_lower(c));
    if n != m {
        assert(l.len() != word@.len());
        return false;
    }
    let mut i: usize = 0;
    while i < n
        invariant
            n == v@.len(),
            n == m,
            m == word@.len(),
            l == v@.map_values(|c: char| ascii_lower(c)),
            i <= n,
            forall|k: int| 0 <= k < i ==> l[k] == word@[k],
        decreases n - i,
    {
        if lower_ascii_char(v.get_char(i)) != word.get_char(i) {
            assert(l[i as int] != word@[i as int]);
            return false;
        }
        i = i + 1;
    }
    assert(l =~= word@);
    true
}

/// Whether OCR is wanted for a request, from its `X-Use-OCR` header value:
/// absent means yes; otherwise yes exactly for `true`, `1`, `yes` or `on`
/// in any letter case.
pub fn should_use_ocr(header: Option<&str>) -> (r: bool)
    ensures
        r == (match header {
            None => true,
            Some(v) => is_truthy(v@),
        }),
{
    match header {
        None => true,
        Some(v) => {
            proof {
                reveal_strlit("true");
                reveal_strlit("1");
                reveal_strlit("yes");
                reveal_strlit("on");
                assert("true"@ =~= seq!['t', 'r', 'u', 'e']);
                assert("1"@ =~= seq!['1']);
                assert("yes"@ =~= seq!['y', 'e', 's']);
                assert("on"@ =~= seq!['o', 'n']);
            }
            equals_lowered(v, "true") || equals_lowered(v, "1") || equals_lowered(v, "yes")
                || equals_lowered(v, "on")
        },
    }
}

/// Settings of the region-search service.
#[derive(Debug, Clone)]
pub struct VisionServiceConfig {
    pub service_url: String,
    pub timeout_ms: u64,
    pub max_regions_per_request: usize,
}

impl Default for VisionServiceConfig {
    fn default() -> (r: Self)
        ensures
            r.timeout_ms == 5000,
            r.max_regions_per_request == 16,
    {
        VisionServiceConfig {
            service_url: String::from_str("http://localhost:8080"),
            timeout_ms: 5000,
            max_regions_per_request: 16,
        }
    }
}

} // verus!
