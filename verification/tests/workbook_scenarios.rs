//! End-to-end scenarios against a real workbook: a simulated external
//! tool answers, the outcome is classified, and the sheets land in a
//! `umya_spreadsheet` workbook whose cells are read back.

use vpc_inventory::outcome::{
    execute, notice_for, payload_of, CommandOutcome, RawInvocation, SuppressReason,
};
use vpc_inventory::records::ComputeInstanceRecord;
use vpc_inventory::sheet::{cluster_list_args, compute_list_args, write_compute_sheet, write_gke_sheet};

fn cell_text(book: &umya_spreadsheet::Workbook, sheet: &str, col: u32, row: u32) -> String {
    book.sheet_by_name(sheet)
        .unwrap()
        .cell((col, row))
        .map(|c| c.value().to_string())
        .unwrap_or_default()
}

fn parse_instances(payload: &str) -> Vec<ComputeInstanceRecord> {
    let v: serde_json::Value = serde_json::from_str(payload).unwrap();
    let mut records = Vec::new();
    for item in v.as_array().unwrap() {
        records.push(ComputeInstanceRecord {
            name: item.get("name").unwrap().as_str().unwrap().to_string(),
            zone: item.get("zone").unwrap().as_str().unwrap().to_string(),
            network: item.get("network").unwrap().as_str().unwrap().to_string(),
            subnetwork: item.get("subnetwork").unwrap().as_str().unwrap().to_string(),
            network_ip: item.get("network_ip").unwrap().as_str().unwrap().to_string(),
            network_interfaces: Vec::new(),
        });
    }
    records
}

#[test]
fn compute_scenario_one_instance() {
    // Simulated compute listing for project "proj-1", network "vpc-a".
    let args = compute_list_args("proj-1", "vpc-a");
    assert_eq!(args[3], "--filter=networkInterfaces.network:vpc-a");
    assert_eq!(args[4], "--project=proj-1");
    let payload = "[{\"name\":\"vm1\",\"zone\":\"us-central1-a\",\"network\":\"vpc-a\",\"subnetwork\":\"sub-a\",\"network_ip\":\"10.0.0.2\",\"network_interfaces\":[]}]";
    let o = execute(RawInvocation {
        exit_ok: true,
        stdout: payload.to_string(),
        stderr: String::new(),
    });
    assert!(notice_for(&args, &o).is_none());
    let records = match payload_of(o) {
        Some(t) => parse_instances(&t),
        None => Vec::new(),
    };

    let mut book = umya_spreadsheet::new_file();
    write_compute_sheet(&mut book, &records);

    let header = ["Name", "Zone", "Network", "Subnetwork", "Network Ip"];
    for (i, label) in header.iter().enumerate() {
        assert_eq!(cell_text(&book, "ComputeEngine", i as u32 + 1, 1), *label);
    }
    let row = ["vm1", "us-central1-a", "vpc-a", "sub-a", "10.0.0.2"];
    for (i, value) in row.iter().enumerate() {
        assert_eq!(cell_text(&book, "ComputeEngine", i as u32 + 1, 2), *value);
    }
    // Exactly one data row: row 3 holds nothing.
    assert_eq!(cell_text(&book, "ComputeEngine", 1, 3), "");
}

#[test]
fn cluster_scenario_api_not_enabled() {
    // Simulated cluster listing that fails with a disabled API.
    let args = cluster_list_args("proj-1", "vpc-a");
    let o = execute(RawInvocation {
        exit_ok: false,
        stdout: String::new(),
        stderr: "API not enabled".to_string(),
    });
    assert!(matches!(
        o,
        CommandOutcome::Suppressed(SuppressReason::ApiDisabled)
    ));
    let notice = notice_for(&args, &o).unwrap();
    assert!(notice.contains("gcloud container clusters list"));

    let records = match payload_of(o) {
        Some(_) => panic!("a suppressed outcome carries no payload"),
        None => Vec::new(),
    };
    let mut book = umya_spreadsheet::new_file();
    write_gke_sheet(&mut book, &records);

    let header = ["Name", "Location", "Network", "Subnetwork"];
    for (i, label) in header.iter().enumerate() {
        assert_eq!(cell_text(&book, "GKE", i as u32 + 1, 1), *label);
    }
    // Header only: no data row was written.
    assert_eq!(cell_text(&book, "GKE", 1, 2), "");
    assert_eq!(cell_text(&book, "GKE", 4, 2), "");
}

#[test]
fn empty_listing_gives_header_only_sheet() {
    // A successful empty listing is indistinguishable in sheet shape from
    // a suppressed one; only the notice differs.
    let o = execute(RawInvocation {
        exit_ok: true,
        stdout: "[]".to_string(),
        stderr: String::new(),
    });
    let args = compute_list_args("p", "v");
    assert!(notice_for(&args, &o).is_none());
    let records = match payload_of(o) {
        Some(t) => parse_instances(&t),
        None => Vec::new(),
    };
    assert!(records.is_empty());
    let mut book = umya_spreadsheet::new_file();
    write_compute_sheet(&mut book, &records);
    assert_eq!(cell_text(&book, "ComputeEngine", 1, 1), "Name");
    assert_eq!(cell_text(&book, "ComputeEngine", 1, 2), "");
}

#[test]
fn values_are_stored_verbatim() {
    // Numeric-looking and whitespace-laden texts come back byte for byte.
    let records = vec![ComputeInstanceRecord {
        name: "10.50".to_string(),
        zone: " spaced ".to_string(),
        network: "TRUE".to_string(),
        subnetwork: String::new(),
        network_ip: "0010".to_string(),
        network_interfaces: Vec::new(),
    }];
    let mut book = umya_spreadsheet::new_file();
    write_compute_sheet(&mut book, &records);
    assert_eq!(cell_text(&book, "ComputeEngine", 1, 2), "10.50");
    assert_eq!(cell_text(&book, "ComputeEngine", 2, 2), " spaced ");
    assert_eq!(cell_text(&book, "ComputeEngine", 3, 2), "TRUE");
    assert_eq!(cell_text(&book, "ComputeEngine", 4, 2), "");
    assert_eq!(cell_text(&book, "ComputeEngine", 5, 2), "0010");
}

#[test]
fn both_sheets_coexist_in_one_workbook() {
    let mut book = umya_spreadsheet::new_file();
    write_compute_sheet(&mut book, &Vec::new());
    write_gke_sheet(&mut book, &Vec::new());
    assert!(book.sheet_by_name("ComputeEngine").is_ok());
    assert!(book.sheet_by_name("GKE").is_ok());
    assert_eq!(cell_text(&book, "ComputeEngine", 5, 1), "Network Ip");
    assert_eq!(cell_text(&book, "GKE", 2, 1), "Location");
}
