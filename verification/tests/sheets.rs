//! Tests for the sheet builders and the argument lists.

use vpc_inventory::records::{ClusterRecord, ComputeInstanceRecord, SubnetworkRecord};
use vpc_inventory::sheet::{
    cluster_list_args, cluster_sheet, compute_list_args, compute_sheet, subnetwork_list_args,
    subnetwork_sheet,
};

fn instance(name: &str, zone: &str, network: &str, subnetwork: &str, ip: &str) -> ComputeInstanceRecord {
    ComputeInstanceRecord {
        name: name.to_string(),
        zone: zone.to_string(),
        network: network.to_string(),
        subnetwork: subnetwork.to_string(),
        network_ip: ip.to_string(),
        network_interfaces: Vec::new(),
    }
}

#[test]
fn compute_list_args_exact() {
    let args = compute_list_args("proj-1", "vpc-a");
    assert_eq!(
        args,
        vec![
            "compute".to_string(),
            "instances".to_string(),
            "list".to_string(),
            "--filter=networkInterfaces.network:vpc-a".to_string(),
            "--project=proj-1".to_string(),
            "--format=json".to_string(),
        ]
    );
}

#[test]
fn cluster_list_args_exact() {
    let args = cluster_list_args("proj-1", "vpc-a");
    assert_eq!(
        args,
        vec![
            "container".to_string(),
            "clusters".to_string(),
            "list".to_string(),
            "--filter=networkInterfaces.network:vpc-a".to_string(),
            "--project=proj-1".to_string(),
            "--format=json".to_string(),
        ]
    );
}

#[test]
fn subnetwork_list_args_query_subnetworks() {
    // The subnetwork listing queries subnetworks of the network; it does
    // not repeat the cluster listing.
    let args = subnetwork_list_args("proj-1", "vpc-a");
    assert_eq!(
        args,
        vec![
            "compute".to_string(),
            "networks".to_string(),
            "subnets".to_string(),
            "list".to_string(),
            "--filter=network:vpc-a".to_string(),
            "--project=proj-1".to_string(),
            "--format=json".to_string(),
        ]
    );
}

#[test]
fn compute_sheet_header_and_name() {
    let s = compute_sheet(&Vec::new());
    assert_eq!(s.name, "ComputeEngine");
    assert_eq!(
        s.header,
        vec![
            "Name".to_string(),
            "Zone".to_string(),
            "Network".to_string(),
            "Subnetwork".to_string(),
            "Network Ip".to_string(),
        ]
    );
    assert!(s.rows.is_empty());
}

#[test]
fn cluster_sheet_header_and_name() {
    let s = cluster_sheet(&Vec::new());
    assert_eq!(s.name, "GKE");
    assert_eq!(
        s.header,
        vec![
            "Name".to_string(),
            "Location".to_string(),
            "Network".to_string(),
            "Subnetwork".to_string(),
        ]
    );
    assert!(s.rows.is_empty());
}

#[test]
fn subnetwork_sheet_header_and_name() {
    let s = subnetwork_sheet(&Vec::new());
    assert_eq!(s.name, "Subnetworks");
    assert_eq!(
        s.header,
        vec!["Name".to_string(), "Range".to_string(), "Region".to_string()]
    );
    assert!(s.rows.is_empty());
}

#[test]
fn compute_sheet_rows_in_listing_order() {
    let records = vec![
        instance("vm1", "z1", "n1", "s1", "10.0.0.1"),
        instance("vm2", "z2", "n2", "s2", "10.0.0.2"),
        instance("vm3", "z3", "n3", "s3", "10.0.0.3"),
    ];
    let s = compute_sheet(&records);
    assert_eq!(s.rows.len(), 3);
    for (i, rec) in records.iter().enumerate() {
        assert_eq!(
            s.rows[i],
            vec![
                rec.name.clone(),
                rec.zone.clone(),
                rec.network.clone(),
                rec.subnetwork.clone(),
                rec.network_ip.clone(),
            ],
            "row {i} must hold record {i}'s fields in column order"
        );
    }
}

#[test]
fn cluster_sheet_rows_in_listing_order() {
    let records = vec![
        ClusterRecord {
            name: "c1".to_string(),
            location: "l1".to_string(),
            network: "n1".to_string(),
            subnetwork: "s1".to_string(),
        },
        ClusterRecord {
            name: "c2".to_string(),
            location: "l2".to_string(),
            network: "n2".to_string(),
            subnetwork: "s2".to_string(),
        },
    ];
    let s = cluster_sheet(&records);
    assert_eq!(s.rows.len(), 2);
    assert_eq!(
        s.rows[0],
        vec!["c1".to_string(), "l1".to_string(), "n1".to_string(), "s1".to_string()]
    );
    assert_eq!(
        s.rows[1],
        vec!["c2".to_string(), "l2".to_string(), "n2".to_string(), "s2".to_string()]
    );
}

#[test]
fn subnetwork_sheet_rows_in_listing_order() {
    let records = vec![SubnetworkRecord {
        name: "sub-a".to_string(),
        range: "10.0.0.0/24".to_string(),
        region: "us-central1".to_string(),
    }];
    let s = subnetwork_sheet(&records);
    assert_eq!(s.rows.len(), 1);
    assert_eq!(
        s.rows[0],
        vec![
            "sub-a".to_string(),
            "10.0.0.0/24".to_string(),
            "us-central1".to_string(),
        ]
    );
}

#[test]
fn duplicate_records_are_kept() {
    // No deduplication: equal records give equal, separate rows.
    let records = vec![
        instance("vm", "z", "n", "s", "ip"),
        instance("vm", "z", "n", "s", "ip"),
    ];
    let s = compute_sheet(&records);
    assert_eq!(s.rows.len(), 2);
    assert_eq!(s.rows[0], s.rows[1]);
}
