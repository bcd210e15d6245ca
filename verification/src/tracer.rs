use vstd::prelude::*;

use crate::span::HttpSpan;

verus! {

/// The immutable identity every pipeline is bound to: created once at
/// startup and shared read-only.
pub struct ResourceDescriptor {
    pub service_name: String,
    pub service_version: String,
}

/// Whether two descriptors name the same resource identity.
pub open spec fn spec_same_resource(a: ResourceDescriptor, b: ResourceDescriptor) -> bool {
    a.service_name@ == b.service_name@ && a.service_version@ == b.service_version@
}

impl ResourceDescriptor {
    /// A second handle to the same identity.
    pub fn duplicate(&self) -> (r: ResourceDescriptor)
        ensures
            spec_same_resource(*self, r),
    {
        ResourceDescriptor {
            service_name: self.service_name.clone(),
            service_version: self.service_version.clone(),
        }
    }
}

/// Creates the shared resource identity from the service's name and
/// version.
pub fn create_resource(service_name: &str, service_version: &str) -> (r: ResourceDescriptor)
    ensures
        r.service_name@ == service_name@,
        r.service_version@ == service_version@,
{
    ResourceDescriptor {
        service_name: service_name.to_owned(),
        service_version: service_version.to_owned(),
    }
}

/// The span pipeline: bound to one resource identity and one collector
/// endpoint, it queues finished spans for batched export. Batching is
/// fire-and-forget: nothing here can fail a request, and the queue drains
/// in the background at the exporter's pace.
pub struct Tracer {
    pub resource: ResourceDescriptor,
    pub endpoint: String,
    pub pending: Vec<HttpSpan>,
}

/// Builds the span pipeline against `endpoint`, bound to `resource`, with
/// an empty batch queue.
pub fn init_tracer(resource: ResourceDescriptor, endpoint: &str) -> (t: Tracer)
    ensures
        t.resource == resource,
        t.endpoint@ == endpoint@,
        t.pending@.len() == 0,
{
    Tracer { resource, endpoint: endpoint.to_owned(), pending: Vec::new() }
}

} // verus!
