//! Preview composition: joining the fields-metadata listing, the
//! tables-metadata listing and the per-table data files into one bounded,
//! human-inspectable structure.
//!
//! Metadata rows are read as ordered key/value records (header cell to
//! row cell, in column order).  For each table, the field records whose
//! `table_name` matches are selected in order, and each leading data row
//! annotates the field record at its column position with a `row N`
//! labelled cell value.  A data row wider than the table's known field
//! records keeps its extra columns out of the preview rather than
//! failing: the annotation is defined for exactly the known columns.

use vstd::prelude::*;
use vstd::string::StringExecFns;
use crate::error::ServiceError;
use crate::text;

verus! {

/// What the external CSV parser returns for a given byte sequence: the
/// table's rows, each row its cells in order — or the parse error's
/// message.  The first row of a metadata listing is its header.
pub uninterp spec fn csv_rows_of(bytes: Seq<u8>) -> Result<Seq<Seq<Seq<char>>>, Seq<char>>;

/// Relies on csv::ReaderBuilder / csv::Reader: parses the bytes as CSV
/// with no header handling, one `Vec<String>` per row, and reports the
/// first malformed row's error message otherwise.  The result is a
/// function of the bytes alone.
#[verifier::external_body]
fn parse_csv_rows(bytes: &Vec<u8>) -> (r: Result<Vec<Vec<String>>, String>)
    ensures
        r is Ok <==> csv_rows_of(bytes@) is Ok,
        r matches Ok(rows) ==> csv_rows_of(bytes@) matches Ok(v) && rows.deep_view() == v,
        r matches Err(m) ==> csv_rows_of(bytes@) matches Err(v) && m@ == v,
{
    let mut reader = csv::ReaderBuilder::new().has_headers(false).from_reader(bytes.as_slice());
    let mut rows: Vec<Vec<String>> = Vec::new();
    for record in reader.records() {
        match record {
            Ok(fields) => rows.push(fields.iter().map(|f| f.to_string()).collect()),
            Err(e) => return Err(format!("{}", e)),
        }
    }
    Ok(rows)
}

/// One metadata record: the header's cells paired with one row's cells,
/// in column order, later extended by `row N` annotations.
#[derive(Debug)]
pub struct Record {
    pub cells: Vec<(String, String)>,
}

/// The view of a record: its key/value pairs as character sequences.
pub open spec fn rec_model(r: Record) -> Seq<(Seq<char>, Seq<char>)> {
    Seq::new(r.cells@.len(), |i: int| (r.cells@[i].0@, r.cells@[i].1@))
}

/// The views of a sequence of records.
pub open spec fn recs_model(rs: Seq<Record>) -> Seq<Seq<(Seq<char>, Seq<char>)>> {
    rs.map_values(|r: Record| rec_model(r))
}

/// The value under the first cell with this key, if any.
pub open spec fn spec_lookup(cells: Seq<(Seq<char>, Seq<char>)>, key: Seq<char>) -> Option<
    Seq<char>,
>
    decreases cells.len(),
{
    if cells.len() == 0 {
        None
    } else if cells.first().0 == key {
        Some(cells.first().1)
    } else {
        spec_lookup(cells.drop_first(), key)
    }
}

/// Looks a key up in a record, first match in cell order.
pub fn record_value(rec: &Record, key: &str) -> (r: Option<String>)
    ensures
        (match r {
            Some(v) => spec_lookup(rec_model(*rec), key@) == Some(v@),
            None => spec_lookup(rec_model(*rec), key@) is None,
        }),
{
    let ghost cells = rec_model(*rec);
    let mut i: usize = 0;
    proof {
        assert(cells.skip(0) =~= cells);
    }
    while i < rec.cells.len()
        invariant
            i <= rec.cells@.len(),
            cells == rec_model(*rec),
            cells.len() == rec.cells@.len(),
            spec_lookup(cells, key@) == spec_lookup(cells.skip(i as int), key@),
        decreases rec.cells@.len() - i,
    {
        proof {
            assert(cells.skip(i as int).first() == cells[i as int]);
            assert(cells.skip(i as int).drop_first() =~= cells.skip(i + 1));
        }
        if text::str_eq(rec.cells[i].0.as_str(), key) {
            return Some(rec.cells[i].1.clone());
        }
        i = i + 1;
    }
    proof {
        assert(cells.skip(cells.len() as int) =~= Seq::<(Seq<char>, Seq<char>)>::empty());
    }
    None
}

/// A row of cells paired with the header: the record one metadata row
/// yields.
pub open spec fn spec_zip_record(header: Seq<Seq<char>>, row: Seq<Seq<char>>) -> Seq<
    (Seq<char>, Seq<char>),
> {
    Seq::new(header.len(), |j: int| (header[j], row[j]))
}

/// Whether parsed rows form a rectangular listing: every data row as
/// wide as the header.
pub open spec fn spec_rows_rectangular(rows: Seq<Seq<Seq<char>>>) -> bool {
    forall|i: int| 1 <= i < rows.len() ==> (#[trigger] rows[i]).len() == rows[0].len()
}

/// The records of a rectangular listing: one per data row, in order.
pub open spec fn spec_records_of(rows: Seq<Seq<Seq<char>>>) -> Seq<Seq<(Seq<char>, Seq<char>)>> {
    if rows.len() == 0 {
        Seq::empty()
    } else {
        Seq::new((rows.len() - 1) as nat, |i: int| spec_zip_record(rows[0], rows[i + 1]))
    }
}

/// Turns parsed rows into records, pairing each data row with the
/// header.  An empty listing has no records; a ragged listing — a data
/// row narrower or wider than the header — is the engine's artifact gone
/// wrong, reported as a storage fault.
pub fn records_from_rows(rows: &Vec<Vec<String>>) -> (r: Result<Vec<Record>, ServiceError>)
    ensures
        r is Ok <==> spec_rows_rectangular(rows.deep_view()),
        r matches Ok(recs) ==> recs_model(recs@) == spec_records_of(rows.deep_view()),
        r matches Err(e) ==> e is Storage,
{
    let ghost rowsv = rows.deep_view();
    if rows.len() == 0 {
        let empty: Vec<Record> = Vec::new();
        proof {
            assert(recs_model(empty@) =~= spec_records_of(rowsv));
        }
        return Ok(empty);
    }
    let header_len = rows[0].len();
    let mut recs: Vec<Record> = Vec::new();
    let mut i: usize = 1;
    while i < rows.len()
        invariant
            1 <= i <= rows@.len(),
            rowsv == rows.deep_view(),
            rowsv.len() == rows@.len(),
            header_len == rowsv[0].len(),
            recs@.len() == i - 1,
            forall|j: int| 1 <= j < i ==> (#[trigger] rowsv[j]).len() == rowsv[0].len(),
            forall|j: int|
                0 <= j < i - 1 ==> #[trigger] rec_model(recs@[j]) == spec_zip_record(
                    rowsv[0],
                    rowsv[j + 1],
                ),
        decreases rows@.len() - i,
    {
        if rows[i].len() != header_len {
            proof {
                assert(rowsv[i as int].len() == rows@[i as int]@.len());
                assert(rowsv[0].len() == rows@[0]@.len());
                assert(!spec_rows_rectangular(rowsv));
            }
            return Err(
                ServiceError::Storage {
                    message: "a metadata listing row does not match its header".to_owned(),
                },
            );
        }
        let mut cells: Vec<(String, String)> = Vec::new();
        let mut j: usize = 0;
        while j < header_len
            invariant
                j <= header_len,
                i < rows@.len(),
                rowsv == rows.deep_view(),
                rowsv.len() == rows@.len(),
                header_len == rowsv[0].len(),
                rowsv[i as int].len() == header_len,
                cells@.len() == j,
                forall|k: int|
                    0 <= k < j ==> (#[trigger] cells@[k].0)@ == rowsv[0][k] && cells@[k].1@
                        == rowsv[i as int][k],
            decreases header_len - j,
        {
            cells.push((rows[0][j].clone(), rows[i][j].clone()));
            j = j + 1;
        }
        let rec = Record { cells };
        proof {
            assert(rec_model(rec) =~= spec_zip_record(rowsv[0], rowsv[i as int]));
        }
        recs.push(rec);
        i = i + 1;
    }
    proof {
        assert(recs_model(recs@) =~= spec_records_of(rowsv));
    }
    Ok(recs)
}

/// Parses a metadata listing (fields or tables) from its file's bytes
/// into records.  A byte sequence the CSV parser rejects, like a ragged
/// listing, is a storage fault: the engine wrote it, not the client.
pub fn parse_metadata(bytes: &Vec<u8>) -> (r: Result<Vec<Record>, ServiceError>)
    ensures
        r is Ok <==> (csv_rows_of(bytes@) matches Ok(rows) && spec_rows_rectangular(rows)),
        r matches Ok(recs) ==> csv_rows_of(bytes@) matches Ok(rows) && recs_model(recs@)
            == spec_records_of(rows),
        r matches Err(e) ==> e is Storage,
{
    match parse_csv_rows(bytes) {
        Ok(rows) => records_from_rows(&rows),
        Err(m) => Err(ServiceError::Storage { message: m }),
    }
}

/// Whether a field record belongs to this table.
pub open spec fn spec_field_matches(m: Seq<(Seq<char>, Seq<char>)>, table: Seq<char>) -> bool {
    spec_lookup(m, "table_name"@) == Some(table)
}

/// The field records that belong to this table, in listing order.
pub open spec fn spec_fields_for(
    models: Seq<Seq<(Seq<char>, Seq<char>)>>,
    table: Seq<char>,
) -> Seq<Seq<(Seq<char>, Seq<char>)>>
    decreases models.len(),
{
    if models.len() == 0 {
        Seq::empty()
    } else {
        (if spec_field_matches(models.first(), table) {
            seq![models.first()]
        } else {
            Seq::empty()
        }) + spec_fields_for(models.drop_first(), table)
    }
}

/// Copies a record cell by cell.
fn clone_record(r: &Record) -> (c: Record)
    ensures
        rec_model(c) == rec_model(*r),
{
    let mut cells: Vec<(String, String)> = Vec::new();
    let mut i: usize = 0;
    while i < r.cells.len()
        invariant
            i <= r.cells@.len(),
            cells@.len() == i,
            forall|j: int|
                0 <= j < i ==> (#[trigger] cells@[j].0)@ == r.cells@[j].0@ && cells@[j].1@
                    == r.cells@[j].1@,
        decreases r.cells@.len() - i,
    {
        cells.push((r.cells[i].0.clone(), r.cells[i].1.clone()));
        i = i + 1;
    }
    let c = Record { cells };
    proof {
        assert(rec_model(c) =~= rec_model(*r));
    }
    c
}

/// Selects the field records whose `table_name` is `table`, in order.
pub fn fields_for_table(fields: &Vec<Record>, table: &str) -> (r: Vec<Record>)
    ensures
        recs_model(r@) == spec_fields_for(recs_model(fields@), table@),
{
    let ghost models = recs_model(fields@);
    let mut r: Vec<Record> = Vec::new();
    let mut i: usize = 0;
    proof {
        assert(models.skip(0) =~= models);
    }
    while i < fields.len()
        invariant
            i <= fields@.len(),
            models == recs_model(fields@),
            models.len() == fields@.len(),
            recs_model(r@) + spec_fields_for(models.skip(i as int), table@) == spec_fields_for(
                models,
                table@,
            ),
        decreases fields@.len() - i,
    {
        proof {
            assert(models.skip(i as int).first() == models[i as int]);
            assert(models.skip(i as int).drop_first() =~= models.skip(i + 1));
        }
        let name = record_value(&fields[i], "table_name");
        let keep = match &name {
            Some(v) => text::str_eq(v.as_str(), table),
            None => false,
        };
        if keep {
            let ghost before = r@;
            r.push(clone_record(&fields[i]));
            proof {
                assert(recs_model(r@) =~= recs_model(before).push(rec_model(fields@[i as int])));
                assert(recs_model(r@) + spec_fields_for(models.skip(i + 1), table@)
                    =~= spec_fields_for(models, table@));
            }
        } else {
            proof {
                assert(!spec_field_matches(models[i as int], table@));
                assert(spec_fields_for(models.skip(i as int), table@) =~= spec_fields_for(
                    models.skip(i + 1),
                    table@,
                ));
            }
        }
        i = i + 1;
    }
    proof {
        assert(models.skip(models.len() as int) =~= Seq::<Seq<(Seq<char>, Seq<char>)>>::empty());
        assert(recs_model(r@) + Seq::<Seq<(Seq<char>, Seq<char>)>>::empty() =~= recs_model(r@));
    }
    r
}

/// The label of one sampled data row.
pub open spec fn spec_row_label(i: int) -> Seq<char> {
    "row "@ + text::spec_decimal(i)
}

/// The `row N` annotations column `col` collects from the data rows from
/// index `start` on: one labelled cell value per row wide enough to have
/// that column.
pub open spec fn spec_annotations_from(
    col: int,
    data: Seq<Seq<Seq<char>>>,
    start: int,
) -> Seq<(Seq<char>, Seq<char>)>
    decreases data.len() - start,
{
    if start < 0 || start >= data.len() {
        Seq::empty()
    } else {
        (if col < data[start].len() {
            seq![(spec_row_label(start), data[start][col])]
        } else {
            Seq::empty()
        }) + spec_annotations_from(col, data, start + 1)
    }
}

/// Extends one field record with its column's `row N` annotations over
/// all data rows, in row order.
fn annotate_record(rec: &Record, col: usize, data: &Vec<Vec<String>>) -> (r: Record)
    ensures
        rec_model(r) == rec_model(*rec) + spec_annotations_from(col as int, data.deep_view(), 0),
{
    let ghost datav = data.deep_view();
    let mut cur = clone_record(rec);
    let mut i: usize = 0;
    while i < data.len()
        invariant
            i <= data@.len(),
            datav == data.deep_view(),
            datav.len() == data@.len(),
            rec_model(cur) + spec_annotations_from(col as int, datav, i as int) == rec_model(*rec)
                + spec_annotations_from(col as int, datav, 0),
        decreases data@.len() - i,
    {
        if col < data[i].len() {
            let mut label = "row ".to_owned();
            let digits = text::u64_to_decimal(i as u64);
            label.append(digits.as_str());
            let value = data[i][col].clone();
            let ghost before = rec_model(cur);
            cur.cells.push((label, value));
            proof {
                assert(label@ == spec_row_label(i as int));
                assert(rec_model(cur) =~= before.push((spec_row_label(i as int), datav[i as int][col as int])));
                assert(rec_model(cur) + spec_annotations_from(col as int, datav, i + 1) =~= before
                    + spec_annotations_from(col as int, datav, i as int));
            }
        } else {
            proof {
                assert(spec_annotations_from(col as int, datav, i as int)
                    =~= spec_annotations_from(col as int, datav, i + 1));
            }
        }
        i = i + 1;
    }
    proof {
        assert(spec_annotations_from(col as int, datav, datav.len() as int) =~= Seq::<
            (Seq<char>, Seq<char>),
        >::empty());
        assert(rec_model(cur) + Seq::<(Seq<char>, Seq<char>)>::empty() =~= rec_model(cur));
    }
    cur
}

/// One table's preview: the table's title, and its field records each
/// carrying their `row N` annotations.
#[derive(Debug)]
pub struct PreviewEntry {
    pub table_name: String,
    pub fields: Vec<Record>,
}

/// The data rows of a raw per-table CSV: everything after its header row.
pub open spec fn spec_data_rows(raw: Seq<Seq<Seq<char>>>) -> Seq<Seq<Seq<char>>> {
    if raw.len() == 0 {
        Seq::empty()
    } else {
        raw.skip(1)
    }
}

/// What a correctly composed preview entry is, for one table record, the
/// full fields listing, and the table's raw data rows.
pub open spec fn spec_entry_matches(
    p: PreviewEntry,
    table: Record,
    fields: Seq<Record>,
    raw: Seq<Seq<Seq<char>>>,
) -> bool {
    let title = spec_lookup(rec_model(table), "table_title"@)->0;
    let tname = spec_lookup(rec_model(table), "table_name"@)->0;
    let base = spec_fields_for(recs_model(fields), tname);
    let data = spec_data_rows(raw);
    &&& p.table_name@ == title
    &&& p.fields@.len() == base.len()
    &&& forall|k: int|
        0 <= k < base.len() ==> #[trigger] rec_model(p.fields@[k]) == base[k]
            + spec_annotations_from(k, data, 0)
}

/// The data rows of a parsed per-table CSV: drops the header row.
fn tail_rows(raw: &Vec<Vec<String>>) -> (r: Vec<Vec<String>>)
    ensures
        r.deep_view() == spec_data_rows(raw.deep_view()),
{
    let ghost rawv = raw.deep_view();
    let mut r: Vec<Vec<String>> = Vec::new();
    if raw.len() == 0 {
        proof {
            assert(r.deep_view() =~= spec_data_rows(rawv));
        }
        return r;
    }
    let mut i: usize = 1;
    while i < raw.len()
        invariant
            1 <= i <= raw@.len(),
            rawv == raw.deep_view(),
            rawv.len() == raw@.len(),
            r@.len() == i - 1,
            forall|j: int| 0 <= j < i - 1 ==> #[trigger] r.deep_view()[j] == rawv[j + 1],
        decreases raw@.len() - i,
    {
        let mut row: Vec<String> = Vec::new();
        let mut j: usize = 0;
        while j < raw[i].len()
            invariant
                i < raw@.len(),
                j <= raw@[i as int]@.len(),
                rawv == raw.deep_view(),
                rawv.len() == raw@.len(),
                row@.len() == j,
                forall|k: int| 0 <= k < j ==> (#[trigger] row@[k])@ == rawv[i as int][k],
            decreases raw@[i as int]@.len() - j,
        {
            row.push(raw[i][j].clone());
            j = j + 1;
        }
        proof {
            assert(row.deep_view() =~= rawv[i as int]);
        }
        let ghost rbefore = r.deep_view();
        r.push(row);
        proof {
            assert(r.deep_view() =~= rbefore.push(rawv[i as int]));
        }
        i = i + 1;
    }
    proof {
        assert(r.deep_view() =~= spec_data_rows(rawv));
    }
    r
}

/// Composes one table's preview entry from its table record, the full
/// fields listing, and the table's raw parsed CSV (header row included).
/// A table record without `table_name` or `table_title` is the engine's
/// listing gone wrong: a storage fault.
pub fn preview_entry(table: &Record, fields: &Vec<Record>, raw: &Vec<Vec<String>>) -> (r: Result<
    PreviewEntry,
    ServiceError,
>)
    ensures
        r is Ok <==> spec_lookup(rec_model(*table), "table_name"@) is Some && spec_lookup(
            rec_model(*table),
            "table_title"@,
        ) is Some,
        r matches Ok(p) ==> spec_entry_matches(p, *table, fields@, raw.deep_view()),
        r matches Err(e) ==> e is Storage,
{
    let tname = match record_value(table, "table_name") {
        Some(v) => v,
        None => {
            return Err(
                ServiceError::Storage {
                    message: "a tables listing row lacks a table_name cell".to_owned(),
                },
            );
        },
    };
    let title = match record_value(table, "table_title") {
        Some(v) => v,
        None => {
            return Err(
                ServiceError::Storage {
                    message: "a tables listing row lacks a table_title cell".to_owned(),
                },
            );
        },
    };
    let base = fields_for_table(fields, tname.as_str());
    let data = tail_rows(raw);
    let ghost basemodels = spec_fields_for(recs_model(fields@), tname@);
    let mut annotated: Vec<Record> = Vec::new();
    let mut k: usize = 0;
    while k < base.len()
        invariant
            k <= base@.len(),
            recs_model(base@) == basemodels,
            base@.len() == basemodels.len(),
            data.deep_view() == spec_data_rows(raw.deep_view()),
            annotated@.len() == k,
            forall|j: int|
                0 <= j < k ==> #[trigger] rec_model(annotated@[j]) == basemodels[j]
                    + spec_annotations_from(j, data.deep_view(), 0),
        decreases base@.len() - k,
    {
        let rec = annotate_record(&base[k], k, &data);
        proof {
            assert(rec_model(base@[k as int]) == basemodels[k as int]);
        }
        annotated.push(rec);
        k = k + 1;
    }
    Ok(PreviewEntry { table_name: title, fields: annotated })
}

/// Composes the full preview: one entry per table record, in the tables
/// listing's row order, each joined with its own raw data rows.
pub fn compose_preview(
    tables: &Vec<Record>,
    fields: &Vec<Record>,
    datas: &Vec<Vec<Vec<String>>>,
) -> (r: Result<Vec<PreviewEntry>, ServiceError>)
    requires
        datas@.len() == tables@.len(),
    ensures
        r is Ok <==> (forall|i: int|
            0 <= i < tables@.len() ==> spec_lookup(
                rec_model(#[trigger] tables@[i]),
                "table_name"@,
            ) is Some && spec_lookup(rec_model(tables@[i]), "table_title"@) is Some),
        r matches Ok(entries) ==> entries@.len() == tables@.len() && (forall|i: int|
            0 <= i < tables@.len() ==> spec_entry_matches(
                #[trigger] entries@[i],
                tables@[i],
                fields@,
                datas.deep_view()[i],
            )),
        r matches Err(e) ==> e is Storage,
{
    let mut entries: Vec<PreviewEntry> = Vec::new();
    let mut i: usize = 0;
    while i < tables.len()
        invariant
            i <= tables@.len(),
            datas@.len() == tables@.len(),
            entries@.len() == i,
            forall|j: int|
                0 <= j < i ==> spec_lookup(
                    rec_model(#[trigger] tables@[j]),
                    "table_name"@,
                ) is Some && spec_lookup(rec_model(tables@[j]), "table_title"@) is Some,
            forall|j: int|
                0 <= j < i ==> spec_entry_matches(
                    #[trigger] entries@[j],
                    tables@[j],
                    fields@,
                    datas.deep_view()[j],
                ),
        decreases tables@.len() - i,
    {
        match preview_entry(&tables[i], fields, &datas[i]) {
            Ok(p) => {
                entries.push(p);
            },
            Err(e) => {
                return Err(e);
            },
        }
        i = i + 1;
    }
    Ok(entries)
}

} // verus!
