//! The records of the metrics catalog, as the vendor's response lists them.

use vstd::prelude::*;

verus! {

/// One metric of the catalog.
#[derive(Debug, PartialEq, Eq)]
pub struct MetricRecord {
    /// The vendor's classification of the metric. It is kept, not exported.
    pub metric_type: String,
    /// The identifier of the metric: the one field that reaches the export.
    pub id: String,
}

/// What a [`MetricRecord`] holds, as mathematical strings.
pub struct MetricRecordModel {
    pub metric_type: Seq<char>,
    pub id: Seq<char>,
}

impl View for MetricRecord {
    type V = MetricRecordModel;

    open spec fn view(&self) -> MetricRecordModel {
        MetricRecordModel { metric_type: self.metric_type@, id: self.id@ }
    }
}

/// The envelope of a response: its records in the order the server gave them.
#[derive(Debug, PartialEq, Eq)]
pub struct ApiResponse {
    pub data: Vec<MetricRecord>,
}

impl View for ApiResponse {
    type V = Seq<MetricRecordModel>;

    open spec fn view(&self) -> Seq<MetricRecordModel> {
        record_models(self.data@)
    }
}

/// The models of `records`, one by one.
pub open spec fn record_models(records: Seq<MetricRecord>) -> Seq<MetricRecordModel> {
    Seq::new(records.len(), |i: int| records[i]@)
}

} // verus!
