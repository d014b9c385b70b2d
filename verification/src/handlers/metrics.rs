//! Filter shapes of the public metrics and export routes.

use vstd::prelude::*;

verus! {

/// Filter accepted by the metrics route.
#[derive(Clone, Debug)]
pub struct MetricsQuery {
    pub semester: Option<String>,
}

/// Filters accepted by the public export route.
#[derive(Clone, Debug)]
pub struct ExportQuery {
    pub semester: Option<String>,
    pub hackathon_id: Option<String>,
    pub format: Option<String>,
}

} // verus!
