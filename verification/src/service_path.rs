//! Addresses on the message bus.

use crate::text::str_eq;
use vstd::prelude::*;

verus! {

/// What a [`ServicePath`] stands for: its seven parts as character sequences.
pub struct ServicePathView {
    pub region_id: Seq<char>,
    pub cluster_id: Seq<char>,
    pub node_id: Seq<char>,
    pub service_type: Seq<char>,
    pub service_id: Seq<char>,
    pub resource_type: Seq<char>,
    pub resource_id: Seq<char>,
}

/// The address of a service, or of a resource of a service, on the bus.
#[derive(Debug, Eq, Hash)]
pub struct ServicePath {
    pub region_id: String,
    pub cluster_id: String,
    pub node_id: String,
    pub service_type: String,
    pub service_id: String,
    pub resource_type: String,
    pub resource_id: String,
}

impl View for ServicePath {
    type V = ServicePathView;

    open spec fn view(&self) -> ServicePathView {
        ServicePathView {
            region_id: self.region_id@,
            cluster_id: self.cluster_id@,
            node_id: self.node_id@,
            service_type: self.service_type@,
            service_id: self.service_id@,
            resource_type: self.resource_type@,
            resource_id: self.resource_id@,
        }
    }
}

impl Clone for ServicePath {
    fn clone(&self) -> (copy: Self)
        ensures
            copy@ == self@,
    {
        ServicePath {
            region_id: self.region_id.clone(),
            cluster_id: self.cluster_id.clone(),
            node_id: self.node_id.clone(),
            service_type: self.service_type.clone(),
            service_id: self.service_id.clone(),
            resource_type: self.resource_type.clone(),
            resource_id: self.resource_id.clone(),
        }
    }
}

impl PartialEq for ServicePath {
    fn eq(&self, other: &Self) -> (same: bool) {
        str_eq(self.region_id.as_str(), other.region_id.as_str()) && str_eq(
            self.cluster_id.as_str(),
            other.cluster_id.as_str(),
        ) && str_eq(self.node_id.as_str(), other.node_id.as_str()) && str_eq(
            self.service_type.as_str(),
            other.service_type.as_str(),
        ) && str_eq(self.service_id.as_str(), other.service_id.as_str()) && str_eq(
            self.resource_type.as_str(),
            other.resource_type.as_str(),
        ) && str_eq(self.resource_id.as_str(), other.resource_id.as_str())
    }
}

impl vstd::std_specs::cmp::PartialEqSpecImpl for ServicePath {
    open spec fn obeys_eq_spec() -> bool {
        true
    }

    open spec fn eq_spec(&self, other: &Self) -> bool {
        self@ == other@
    }
}

} // verus!
