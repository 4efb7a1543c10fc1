//! Typed resource records, one variant per resource kind.  A record is
//! immutable value data produced from one listing of the external
//! inventory tool and consumed immediately to populate a sheet.

use vstd::prelude::*;

verus! {

/// One network interface of a compute instance.  Not every interface
/// populates every field.
#[derive(Debug)]
pub struct NetworkInterfaceRecord {
    pub network: Option<String>,
    pub subnetwork: Option<String>,
    pub network_ip: Option<String>,
}

/// One virtual machine instance, as listed by the inventory tool.
#[derive(Debug)]
pub struct ComputeInstanceRecord {
    pub name: String,
    pub zone: String,
    pub network: String,
    pub subnetwork: String,
    pub network_ip: String,
    pub network_interfaces: Vec<NetworkInterfaceRecord>,
}

/// One managed Kubernetes cluster.
#[derive(Debug)]
pub struct ClusterRecord {
    pub name: String,
    pub location: String,
    pub network: String,
    pub subnetwork: String,
}

/// One subnetwork of a virtual network.
#[derive(Debug)]
pub struct SubnetworkRecord {
    pub name: String,
    pub range: String,
    pub region: String,
}

/// The cell texts of a compute instance's sheet row, in column order.
pub open spec fn instance_row(r: ComputeInstanceRecord) -> Seq<Seq<char>> {
    seq![r.name@, r.zone@, r.network@, r.subnetwork@, r.network_ip@]
}

/// The cell texts of a cluster's sheet row, in column order.
pub open spec fn cluster_row(r: ClusterRecord) -> Seq<Seq<char>> {
    seq![r.name@, r.location@, r.network@, r.subnetwork@]
}

/// The cell texts of a subnetwork's sheet row, in column order.
pub open spec fn subnetwork_row(r: SubnetworkRecord) -> Seq<Seq<char>> {
    seq![r.name@, r.range@, r.region@]
}

} // verus!
