//! Configuration fixed at construction time: page size, concurrency limit,
//! endpoint coordinates and the per-request timeout.

use vstd::prelude::*;

verus! {

/// Number of members requested per page during enumeration.
#[derive(Debug, Clone)]
pub struct PageSize(usize);

impl View for PageSize {
    type V = int;

    closed spec fn view(&self) -> int {
        self.0 as int
    }
}

impl PageSize {
    /// A page size is meaningful only when at least one member is requested
    /// per page.
    pub open spec fn wf(&self) -> bool {
        self@ >= 1
    }

    pub fn new(n: usize) -> (r: PageSize)
        requires
            n >= 1,
        ensures
            r@ == n,
            r.wf(),
    {
        PageSize(n)
    }

    pub fn value(&self) -> (n: usize)
        ensures
            n == self@,
    {
        self.0
    }
}

impl Default for PageSize {
    /// One hundred members per page unless the caller chooses otherwise.
    fn default() -> (r: Self)
        ensures
            r@ == 100,
            r.wf(),
    {
        PageSize(100)
    }
}

/// Upper bound on the number of archive operations in flight at once.
#[derive(Debug, Clone)]
pub struct MaxConcurrency(usize);

impl View for MaxConcurrency {
    type V = int;

    closed spec fn view(&self) -> int {
        self.0 as int
    }
}

impl MaxConcurrency {
    /// A concurrency limit below one would never let any operation start.
    pub open spec fn wf(&self) -> bool {
        self@ >= 1
    }

    pub fn new(n: usize) -> (r: MaxConcurrency)
        requires
            n >= 1,
        ensures
            r@ == n,
            r.wf(),
    {
        MaxConcurrency(n)
    }

    pub fn value(&self) -> (n: usize)
        ensures
            n == self@,
    {
        self.0
    }
}

impl Default for MaxConcurrency {
    /// Eight operations in flight unless the caller chooses otherwise.
    fn default() -> (r: Self)
        ensures
            r@ == 8,
            r.wf(),
    {
        MaxConcurrency(8)
    }
}

/// Everything the pipeline needs, fixed once at construction: the base
/// endpoint, the list being cleaned, the credential, and the paging,
/// concurrency and timeout policies.
pub struct PipelineConfig {
    pub base_url: String,
    pub list_id: String,
    pub api_key: String,
    pub page_size: PageSize,
    pub max_concurrency: MaxConcurrency,
    pub timeout_secs: u64,
}

impl PipelineConfig {
    pub open spec fn wf(&self) -> bool {
        &&& self.page_size.wf()
        &&& self.max_concurrency.wf()
    }

    /// A configuration with the default page size, concurrency limit and
    /// per-request timeout.
    pub fn new(base_url: String, list_id: String, api_key: String) -> (r: PipelineConfig)
        ensures
            r.base_url == base_url,
            r.list_id == list_id,
            r.api_key == api_key,
            r.page_size@ == 100,
            r.max_concurrency@ == 8,
            r.timeout_secs == 10,
            r.wf(),
    {
        PipelineConfig {
            base_url,
            list_id,
            api_key,
            page_size: PageSize::default(),
            max_concurrency: MaxConcurrency::default(),
            timeout_secs: 10,
        }
    }
}

} // verus!
