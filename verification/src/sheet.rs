//! The resource sheet builder: one generic algorithm that renders a record
//! sequence as a named tabular sheet — a fixed header row, then one row
//! per record, in listing order — instantiated once per resource kind.

use vstd::prelude::*;
use umya_spreadsheet::Workbook;
use crate::records::{ComputeInstanceRecord, ClusterRecord, SubnetworkRecord};
use crate::records::{instance_row, cluster_row, subnetwork_row};
use crate::workbook::{book_cells, book_sheet_names, add_sheet, set_sheet_cell};

verus! {

/// The mathematical shape of one sheet: its name, its header labels and
/// its data rows, each cell as a character sequence.
#[verifier::ext_equal]
pub struct SheetModel {
    pub name: Seq<char>,
    pub header: Seq<Seq<char>>,
    pub rows: Seq<Seq<Seq<char>>>,
}

impl SheetModel {
    /// The sheet puts a value at 1-based (col, row): the header in row 1,
    /// data row i (counted from 0) in row i + 2.
    pub open spec fn covers(self, col: int, row: int) -> bool {
        1 <= col <= self.header.len() && 1 <= row <= self.rows.len() + 1
    }

    /// The text the sheet puts at a covered coordinate.
    pub open spec fn cell_text(self, col: int, row: int) -> Seq<char>
        recommends
            self.covers(col, row),
    {
        if row == 1 {
            self.header[col - 1]
        } else {
            self.rows[row - 2][col - 1]
        }
    }

    /// Every data row has exactly one value per header column.
    pub open spec fn wf(self) -> bool {
        forall|i: int|
            0 <= i < self.rows.len() ==> (#[trigger] self.rows[i]).len() == self.header.len()
    }
}

/// The workbook cell map after writing sheet `s` over cells `m`: every
/// covered coordinate of the named sheet holds the sheet's text, and every
/// other key is exactly as in `m`.
pub open spec fn with_sheet(
    m: Map<(Seq<char>, u32, u32), Seq<char>>,
    s: SheetModel,
) -> Map<(Seq<char>, u32, u32), Seq<char>> {
    Map::new(
        |k: (Seq<char>, u32, u32)|
            m.contains_key(k) || (k.0 == s.name && s.covers(k.1 as int, k.2 as int)),
        |k: (Seq<char>, u32, u32)|
            if k.0 == s.name && s.covers(k.1 as int, k.2 as int) {
                s.cell_text(k.1 as int, k.2 as int)
            } else {
                m[k]
            },
    )
}

/// One named tabular sheet, ready to be written into a workbook.
pub struct Sheet {
    pub name: String,
    pub header: Vec<String>,
    pub rows: Vec<Vec<String>>,
}

impl Sheet {
    /// The sheet's mathematical model.
    pub open spec fn model(self) -> SheetModel {
        SheetModel { name: self.name@, header: self.header.deep_view(), rows: self.rows.deep_view() }
    }
}

/// The keys written so far: every workbook row of the sheet before
/// `row_done` in full, and the first `col_done` columns of row `row_done`.
spec fn written_upto(s: SheetModel, row_done: int, col_done: int, k: (Seq<char>, u32, u32)) -> bool {
    &&& k.0 == s.name
    &&& 1 <= k.1 <= s.header.len()
    &&& 1 <= k.2
    &&& ((k.2 as int) < row_done || ((k.2 as int) == row_done && (k.1 as int) <= col_done))
}

/// The cell map part-way through writing sheet `s` over `m`.
spec fn map_upto(
    m: Map<(Seq<char>, u32, u32), Seq<char>>,
    s: SheetModel,
    row_done: int,
    col_done: int,
) -> Map<(Seq<char>, u32, u32), Seq<char>> {
    Map::new(
        |k: (Seq<char>, u32, u32)| m.contains_key(k) || written_upto(s, row_done, col_done, k),
        |k: (Seq<char>, u32, u32)|
            if written_upto(s, row_done, col_done, k) {
                s.cell_text(k.1 as int, k.2 as int)
            } else {
                m[k]
            },
    )
}

/// Create (or reuse) the sheet's named tab in the workbook and write the
/// header and every data row into it, in order.
pub fn write_sheet(book: &mut Workbook, sheet: &Sheet)
    requires
        sheet.model().wf(),
        sheet.header@.len() < u32::MAX,
        sheet.rows@.len() + 1 < u32::MAX,
    ensures
        book_sheet_names(*final(book)) == book_sheet_names(*old(book)).insert(sheet.name@),
        book_cells(*final(book)) == with_sheet(book_cells(*old(book)), sheet.model()),
{
    let ghost m0 = book_cells(*old(book));
    let ghost names0 = book_sheet_names(*old(book));
    let ghost sm = sheet.model();
    add_sheet(book, sheet.name.as_str());
    proof {
        assert(book_cells(*book) =~~= map_upto(m0, sm, 1, 0));
    }
    let ncols = sheet.header.len();
    let nrows = sheet.rows.len();
    let mut r: usize = 1;
    while r <= nrows + 1
        invariant
            1 <= r <= nrows + 2,
            ncols == sm.header.len(),
            nrows == sm.rows.len(),
            sm == sheet.model(),
            sheet.model().wf(),
            ncols < u32::MAX,
            nrows + 1 < u32::MAX,
            book_sheet_names(*book) == names0.insert(sm.name),
            book_cells(*book) == map_upto(m0, sm, r as int, 0),
        decreases nrows + 2 - r,
    {
        let mut c: usize = 0;
        while c < ncols
            invariant
                c <= ncols,
                1 <= r <= nrows + 1,
                ncols == sm.header.len(),
                nrows == sm.rows.len(),
                sm == sheet.model(),
                sheet.model().wf(),
                ncols < u32::MAX,
                nrows + 1 < u32::MAX,
                book_sheet_names(*book) == names0.insert(sm.name),
                book_cells(*book) == map_upto(m0, sm, r as int, c as int),
            decreases ncols - c,
        {
            proof {
                if r != 1 {
                    assert(sm.rows[r - 2].len() == ncols);
                    assert(sheet.rows.deep_view()[r - 2] == sheet.rows@[r - 2].deep_view());
                }
            }
            let value: &String = if r == 1 {
                &sheet.header[c]
            } else {
                &sheet.rows[r - 2][c]
            };
            proof {
                if r == 1 {
                    assert(value@ == sm.header[c as int]);
                } else {
                    assert(sheet.rows.deep_view()[r - 2] == sheet.rows@[r - 2].deep_view());
                    assert(value@ == sm.rows[r - 2][c as int]);
                }
                assert(value@ == sm.cell_text(c + 1, r as int));
            }
            set_sheet_cell(book, sheet.name.as_str(), (c + 1) as u32, r as u32, value.as_str());
            proof {
                assert(book_cells(*book) =~~= map_upto(m0, sm, r as int, c + 1));
            }
            c = c + 1;
        }
        proof {
            assert(map_upto(m0, sm, r as int, ncols as int) =~~= map_upto(m0, sm, r as int + 1, 0));
        }
        r = r + 1;
    }
    proof {
        assert(map_upto(m0, sm, nrows + 2, 0) =~~= with_sheet(m0, sm));
    }
}

/// The argument list of the compute-instance listing: the subcommand
/// path, the network filter, the project scope and the JSON output flag.
pub open spec fn compute_list_args_spec(project: Seq<char>, vpc: Seq<char>) -> Seq<Seq<char>> {
    seq![
        "compute"@,
        "instances"@,
        "list"@,
        "--filter=networkInterfaces.network:"@ + vpc,
        "--project="@ + project,
        "--format=json"@,
    ]
}

/// The argument list of the cluster listing.
pub open spec fn cluster_list_args_spec(project: Seq<char>, vpc: Seq<char>) -> Seq<Seq<char>> {
    seq![
        "container"@,
        "clusters"@,
        "list"@,
        "--filter=networkInterfaces.network:"@ + vpc,
        "--project="@ + project,
        "--format=json"@,
    ]
}

/// The argument list of the subnetwork listing: subnetworks of the named
/// network, scoped to the project.
pub open spec fn subnetwork_list_args_spec(project: Seq<char>, vpc: Seq<char>) -> Seq<Seq<char>> {
    seq![
        "compute"@,
        "networks"@,
        "subnets"@,
        "list"@,
        "--filter=network:"@ + vpc,
        "--project="@ + project,
        "--format=json"@,
    ]
}

/// Build the compute-instance listing arguments for a project and network.
pub fn compute_list_args(project: &str, vpc: &str) -> (args: Vec<String>)
    ensures
        args.deep_view() == compute_list_args_spec(project@, vpc@),
{
    let mut args: Vec<String> = Vec::new();
    args.push(String::from_str("compute"));
    args.push(String::from_str("instances"));
    args.push(String::from_str("list"));
    let mut filter = String::from_str("--filter=networkInterfaces.network:");
    filter.append(vpc);
    args.push(filter);
    let mut scope = String::from_str("--project=");
    scope.append(project);
    args.push(scope);
    args.push(String::from_str("--format=json"));
    proof {
        assert(args.deep_view() =~~= compute_list_args_spec(project@, vpc@));
    }
    args
}

/// Build the cluster listing arguments for a project and network.
pub fn cluster_list_args(project: &str, vpc: &str) -> (args: Vec<String>)
    ensures
        args.deep_view() == cluster_list_args_spec(project@, vpc@),
{
    let mut args: Vec<String> = Vec::new();
    args.push(String::from_str("container"));
    args.push(String::from_str("clusters"));
    args.push(String::from_str("list"));
    let mut filter = String::from_str("--filter=networkInterfaces.network:");
    filter.append(vpc);
    args.push(filter);
    let mut scope = String::from_str("--project=");
    scope.append(project);
    args.push(scope);
    args.push(String::from_str("--format=json"));
    proof {
        assert(args.deep_view() =~~= cluster_list_args_spec(project@, vpc@));
    }
    args
}

/// Build the subnetwork listing arguments for a project and network.
pub fn subnetwork_list_args(project: &str, vpc: &str) -> (args: Vec<String>)
    ensures
        args.deep_view() == subnetwork_list_args_spec(project@, vpc@),
{
    let mut args: Vec<String> = Vec::new();
    args.push(String::from_str("compute"));
    args.push(String::from_str("networks"));
    args.push(String::from_str("subnets"));
    args.push(String::from_str("list"));
    let mut filter = String::from_str("--filter=network:");
    filter.append(vpc);
    args.push(filter);
    let mut scope = String::from_str("--project=");
    scope.append(project);
    args.push(scope);
    args.push(String::from_str("--format=json"));
    proof {
        assert(args.deep_view() =~~= subnetwork_list_args_spec(project@, vpc@));
    }
    args
}

/// The header labels of the compute-instance sheet, in column order.
pub open spec fn compute_header() -> Seq<Seq<char>> {
    seq!["Name"@, "Zone"@, "Network"@, "Subnetwork"@, "Network Ip"@]
}

/// The header labels of the cluster sheet, in column order.
pub open spec fn cluster_header() -> Seq<Seq<char>> {
    seq!["Name"@, "Location"@, "Network"@, "Subnetwork"@]
}

/// The header labels of the subnetwork sheet, in column order.
pub open spec fn subnetwork_header() -> Seq<Seq<char>> {
    seq!["Name"@, "Range"@, "Region"@]
}

/// The compute-instance sheet for a record sequence.
pub open spec fn compute_sheet_model(records: Seq<ComputeInstanceRecord>) -> SheetModel {
    SheetModel {
        name: "ComputeEngine"@,
        header: compute_header(),
        rows: records.map_values(|r: ComputeInstanceRecord| instance_row(r)),
    }
}

/// The cluster sheet for a record sequence.
pub open spec fn cluster_sheet_model(records: Seq<ClusterRecord>) -> SheetModel {
    SheetModel {
        name: "GKE"@,
        header: cluster_header(),
        rows: records.map_values(|r: ClusterRecord| cluster_row(r)),
    }
}

/// The subnetwork sheet for a record sequence.
pub open spec fn subnetwork_sheet_model(records: Seq<SubnetworkRecord>) -> SheetModel {
    SheetModel {
        name: "Subnetworks"@,
        header: subnetwork_header(),
        rows: records.map_values(|r: SubnetworkRecord| subnetwork_row(r)),
    }
}

/// Build the compute-instance sheet: the fixed header and one data row per
/// record, in listing order.
pub fn compute_sheet(records: &Vec<ComputeInstanceRecord>) -> (s: Sheet)
    ensures
        s.model() == compute_sheet_model(records@),
{
    let mut rows: Vec<Vec<String>> = Vec::new();
    let mut i: usize = 0;
    while i < records.len()
        invariant
            i <= records@.len(),
            rows@.len() == i,
            forall|j: int|
                0 <= j < i ==> (#[trigger] rows@[j]).deep_view() == instance_row(records@[j]),
        decreases records@.len() - i,
    {
        let rec = &records[i];
        let mut row: Vec<String> = Vec::new();
        row.push(rec.name.clone());
        row.push(rec.zone.clone());
        row.push(rec.network.clone());
        row.push(rec.subnetwork.clone());
        row.push(rec.network_ip.clone());
        proof {
            assert(row.deep_view() =~~= instance_row(records@[i as int]));
        }
        rows.push(row);
        i = i + 1;
    }
    let mut header: Vec<String> = Vec::new();
    header.push(String::from_str("Name"));
    header.push(String::from_str("Zone"));
    header.push(String::from_str("Network"));
    header.push(String::from_str("Subnetwork"));
    header.push(String::from_str("Network Ip"));
    let s = Sheet { name: String::from_str("ComputeEngine"), header, rows };
    proof {
        assert(s.model().rows =~~= compute_sheet_model(records@).rows);
        assert(s.model().header =~~= compute_header());
        assert(s.model() =~~= compute_sheet_model(records@));
    }
    s
}

/// Build the cluster sheet: the fixed header and one data row per record,
/// in listing order.
pub fn cluster_sheet(records: &Vec<ClusterRecord>) -> (s: Sheet)
    ensures
        s.model() == cluster_sheet_model(records@),
{
    let mut rows: Vec<Vec<String>> = Vec::new();
    let mut i: usize = 0;
    while i < records.len()
        invariant
            i <= records@.len(),
            rows@.len() == i,
            forall|j: int|
                0 <= j < i ==> (#[trigger] rows@[j]).deep_view() == cluster_row(records@[j]),
        decreases records@.len() - i,
    {
        let rec = &records[i];
        let mut row: Vec<String> = Vec::new();
        row.push(rec.name.clone());
        row.push(rec.location.clone());
        row.push(rec.network.clone());
        row.push(rec.subnetwork.clone());
        proof {
            assert(row.deep_view() =~~= cluster_row(records@[i as int]));
        }
        rows.push(row);
        i = i + 1;
    }
    let mut header: Vec<String> = Vec::new();
    header.push(String::from_str("Name"));
    header.push(String::from_str("Location"));
    header.push(String::from_str("Network"));
    header.push(String::from_str("Subnetwork"));
    let s = Sheet { name: String::from_str("GKE"), header, rows };
    proof {
        assert(s.model().rows =~~= cluster_sheet_model(records@).rows);
        assert(s.model().header =~~= cluster_header());
        assert(s.model() =~~= cluster_sheet_model(records@));
    }
    s
}

/// Build the subnetwork sheet: the fixed header and one data row per
/// record, in listing order.
pub fn subnetwork_sheet(records: &Vec<SubnetworkRecord>) -> (s: Sheet)
    ensures
        s.model() == subnetwork_sheet_model(records@),
{
    let mut rows: Vec<Vec<String>> = Vec::new();
    let mut i: usize = 0;
    while i < records.len()
        invariant
            i <= records@.len(),
            rows@.len() == i,
            forall|j: int|
                0 <= j < i ==> (#[trigger] rows@[j]).deep_view() == subnetwork_row(records@[j]),
        decreases records@.len() - i,
    {
        let rec = &records[i];
        let mut row: Vec<String> = Vec::new();
        row.push(rec.name.clone());
        row.push(rec.range.clone());
        row.push(rec.region.clone());
        proof {
            assert(row.deep_view() =~~= subnetwork_row(records@[i as int]));
        }
        rows.push(row);
        i = i + 1;
    }
    let mut header: Vec<String> = Vec::new();
    header.push(String::from_str("Name"));
    header.push(String::from_str("Range"));
    header.push(String::from_str("Region"));
    let s = Sheet { name: String::from_str("Subnetworks"), header, rows };
    proof {
        assert(s.model().rows =~~= subnetwork_sheet_model(records@).rows);
        assert(s.model().header =~~= subnetwork_header());
        assert(s.model() =~~= subnetwork_sheet_model(records@));
    }
    s
}

/// Add the compute-instance sheet for these records to the workbook: the
/// sheet named "ComputeEngine", its header in row 1 and one row per
/// record, in order; no other cell of the workbook changes.
pub fn write_compute_sheet(book: &mut Workbook, records: &Vec<ComputeInstanceRecord>)
    requires
        records@.len() + 1 < u32::MAX,
    ensures
        book_sheet_names(*final(book)) == book_sheet_names(*old(book)).insert("ComputeEngine"@),
        book_cells(*final(book)) == with_sheet(
            book_cells(*old(book)),
            compute_sheet_model(records@),
        ),
{
    let sheet = compute_sheet(records);
    proof {
        assert(sheet.rows@.len() == sheet.model().rows.len());
        assert(sheet.header@.len() == sheet.model().header.len());
    }
    write_sheet(book, &sheet);
}

/// Add the cluster sheet for these records to the workbook: the sheet
/// named "GKE", its header in row 1 and one row per record, in order; no
/// other cell of the workbook changes.
pub fn write_gke_sheet(book: &mut Workbook, records: &Vec<ClusterRecord>)
    requires
        records@.len() + 1 < u32::MAX,
    ensures
        book_sheet_names(*final(book)) == book_sheet_names(*old(book)).insert("GKE"@),
        book_cells(*final(book)) == with_sheet(
            book_cells(*old(book)),
            cluster_sheet_model(records@),
        ),
{
    let sheet = cluster_sheet(records);
    proof {
        assert(sheet.rows@.len() == sheet.model().rows.len());
        assert(sheet.header@.len() == sheet.model().header.len());
    }
    write_sheet(book, &sheet);
}

/// Add the subnetwork sheet for these records to the workbook: the sheet
/// named "Subnetworks", its header in row 1 and one row per record, in
/// order; no other cell of the workbook changes.
pub fn write_subnetwork_sheet(book: &mut Workbook, records: &Vec<SubnetworkRecord>)
    requires
        records@.len() + 1 < u32::MAX,
    ensures
        book_sheet_names(*final(book)) == book_sheet_names(*old(book)).insert("Subnetworks"@),
        book_cells(*final(book)) == with_sheet(
            book_cells(*old(book)),
            subnetwork_sheet_model(records@),
        ),
{
    let sheet = subnetwork_sheet(records);
    proof {
        assert(sheet.rows@.len() == sheet.model().rows.len());
        assert(sheet.header@.len() == sheet.model().header.len());
    }
    write_sheet(book, &sheet);
}

/// Row order is preserved: after any well-formed sheet is written over the
/// cells `m`, workbook row `i + 2` of that sheet holds exactly its data
/// row `i`, in column order — no reordering, no gaps, no deduplication.
pub proof fn lemma_sheet_rows_in_order(
    m: Map<(Seq<char>, u32, u32), Seq<char>>,
    s: SheetModel,
    i: int,
    col: int,
)
    requires
        s.wf(),
        0 <= i < s.rows.len(),
        1 <= col <= s.header.len(),
        s.rows.len() + 1 < u32::MAX,
        s.header.len() < u32::MAX,
    ensures
        with_sheet(m, s).contains_key((s.name, col as u32, (i + 2) as u32)),
        with_sheet(m, s)[(s.name, col as u32, (i + 2) as u32)] == s.rows[i][col - 1],
{
    let k = (s.name, col as u32, (i + 2) as u32);
    assert(k.1 as int == col && k.2 as int == i + 2);
    assert(s.covers(col, i + 2));
    assert(s.cell_text(col, i + 2) == s.rows[i][col - 1]);
}

/// The same, spelled out for the compute-instance sheet: workbook row
/// `i + 2` of "ComputeEngine" holds the fields of record `i`, in column
/// order.
pub proof fn lemma_compute_rows_in_order(
    m: Map<(Seq<char>, u32, u32), Seq<char>>,
    records: Seq<ComputeInstanceRecord>,
    i: int,
    col: int,
)
    requires
        0 <= i < records.len(),
        1 <= col <= 5,
        records.len() + 1 < u32::MAX,
    ensures
        with_sheet(m, compute_sheet_model(records)).contains_key(
            ("ComputeEngine"@, col as u32, (i + 2) as u32),
        ),
        with_sheet(m, compute_sheet_model(records))[("ComputeEngine"@, col as u32, (i + 2) as u32)]
            == instance_row(records[i])[col - 1],
{
    let s = compute_sheet_model(records);
    let k = ("ComputeEngine"@, col as u32, (i + 2) as u32);
    assert(s.header.len() == 5);
    assert(k.1 as int == col && k.2 as int == i + 2);
    assert(s.covers(col, i + 2));
    assert(s.cell_text(col, i + 2) == s.rows[i][col - 1]);
    assert(s.rows[i] == instance_row(records[i]));
}

/// The header is always written: after any well-formed sheet is written
/// over the cells `m`, workbook row 1 of that sheet holds its header
/// labels, in column order.
pub proof fn lemma_header_written(m: Map<(Seq<char>, u32, u32), Seq<char>>, s: SheetModel, col: int)
    requires
        1 <= col <= s.header.len(),
        s.header.len() < u32::MAX,
    ensures
        with_sheet(m, s).contains_key((s.name, col as u32, 1)),
        with_sheet(m, s)[(s.name, col as u32, 1)] == s.header[col - 1],
{
    let k = (s.name, col as u32, 1u32);
    assert(k.1 as int == col);
    assert(s.covers(col, 1));
}

/// A sheet without data rows leaves every workbook row beyond its header
/// row untouched: a suppressed outcome, like an empty successful listing,
/// produces a header-only sheet.
pub proof fn lemma_empty_sheet_header_only(
    m: Map<(Seq<char>, u32, u32), Seq<char>>,
    s: SheetModel,
    col: u32,
    row: u32,
)
    requires
        s.rows.len() == 0,
        row >= 2,
        !m.contains_key((s.name, col, row)),
    ensures
        !with_sheet(m, s).contains_key((s.name, col, row)),
{
    assert(!s.covers(col as int, row as int));
}

} // verus!
