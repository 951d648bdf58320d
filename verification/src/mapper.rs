//! Conversion between records and rows of the backing store.
//!
//! Reading fails fast: a key that is no identifier or a temporal column that
//! cannot be read stops the row, and nothing is put in its place.

use vstd::prelude::*;

use crate::errors::{RepositoryError, RepositoryErrorView, TemporalColumn};
use crate::identifier::{canonical_form, identifier_value, simple_form, InternalKey};
use crate::models::{
    record_views, row_views, CreateNFeIdentification, CreateNFeIdentificationView,
    NFeIdentification, NFeIdentificationView, RowChanges, RowChangesView, RowValues,
    RowValuesView, StoredRow, StoredRowView, UpdateNFeIdentification,
    UpdateNFeIdentificationView,
};
use crate::timestamp::{
    decode_instant, decode_optional_instant, encode_instant, encode_optional_instant,
    optional_from_column_text, optional_text_view, optional_to_column_text, Timestamp,
};

verus! {

/// The record that a row holds, once every column has been read.
pub open spec fn assemble(
    row: StoredRowView,
    key: u128,
    dh_emi: int,
    dh_sai_ent: Option<int>,
    dh_cont: Option<int>,
    created_at: int,
    updated_at: int,
) -> NFeIdentificationView {
    NFeIdentificationView {
        internal_key: canonical_form(key),

        c_uf: row.c_uf,
        c_nf: row.c_nf,
        nat_op: row.nat_op,
        mod_: row.mod_,
        serie: row.serie,
        n_nf: row.n_nf,
        dh_emi,
        dh_sai_ent,
        dh_cont,
        tp_nf: row.tp_nf,
        id_dest: row.id_dest,
        c_mun_fg: row.c_mun_fg,
        tp_imp: row.tp_imp,
        tp_emis: row.tp_emis,
        c_dv: row.c_dv,
        tp_amb: row.tp_amb,
        fin_nfe: row.fin_nfe,
        ind_final: row.ind_final,
        ind_pres: row.ind_pres,
        proc_emi: row.proc_emi,
        ver_proc: row.ver_proc,
        x_justificativa: None,
        created_at,
        updated_at,
    }
}

/// What reading a row gives: the record, or the first column that stops it.
///
/// The key is read first, then the temporal columns in the order emission,
/// departure, contingency, creation, last update.
pub open spec fn decode_row(row: StoredRowView) -> Result<
    NFeIdentificationView,
    RepositoryErrorView,
> {
    match identifier_value(row.internal_key) {
        None => Err(RepositoryErrorView::InvalidIdentifier(row.internal_key)),
        Some(key) => match decode_instant(row.dh_emi) {
            None => Err(RepositoryErrorView::ParseError(TemporalColumn::DhEmi, row.dh_emi)),
            Some(dh_emi) => match decode_optional_instant(row.dh_sai_ent) {
                None => Err(
                    RepositoryErrorView::ParseError(TemporalColumn::DhSaiEnt, row.dh_sai_ent->0),
                ),
                Some(dh_sai_ent) => match decode_optional_instant(row.dh_cont) {
                    None => Err(
                        RepositoryErrorView::ParseError(TemporalColumn::DhCont, row.dh_cont->0),
                    ),
                    Some(dh_cont) => match decode_instant(row.created_at) {
                        None => Err(
                            RepositoryErrorView::ParseError(
                                TemporalColumn::CreatedAt,
                                row.created_at,
                            ),
                        ),
                        Some(created_at) => match decode_instant(row.updated_at) {
                            None => Err(
                                RepositoryErrorView::ParseError(
                                    TemporalColumn::UpdatedAt,
                                    row.updated_at,
                                ),
                            ),
                            Some(updated_at) => Ok(
                                assemble(
                                    row,
                                    key,
                                    dh_emi,
                                    dh_sai_ent,
                                    dh_cont,
                                    created_at,
                                    updated_at,
                                ),
                            ),
                        },
                    },
                },
            },
        },
    }
}

/// What reading a sequence of rows gives: every record in order, or the
/// failure of the first row that cannot be read.
pub open spec fn decode_rows(rows: Seq<StoredRowView>) -> Result<
    Seq<NFeIdentificationView>,
    RepositoryErrorView,
>
    decreases rows.len(),
{
    if rows.len() == 0 {
        Ok(Seq::empty())
    } else {
        match decode_rows(rows.drop_last()) {
            Err(error) => Err(error),
            Ok(records) => match decode_row(rows.last()) {
                Err(error) => Err(error),
                Ok(record) => Ok(records.push(record)),
            },
        }
    }
}

/// The values under which a new record is inserted.
pub open spec fn encode_new(key: u128, input: CreateNFeIdentificationView) -> RowValuesView {
    RowValuesView {
        internal_key: simple_form(key),

        c_uf: input.c_uf,
        c_nf: input.c_nf,
        nat_op: input.nat_op,
        mod_: input.mod_,
        serie: input.serie,
        n_nf: input.n_nf,
        dh_emi: encode_instant(input.dh_emi),
        dh_sai_ent: encode_optional_instant(input.dh_sai_ent),
        dh_cont: encode_optional_instant(input.dh_cont),
        tp_nf: input.tp_nf,
        id_dest: input.id_dest,
        c_mun_fg: input.c_mun_fg,
        tp_imp: input.tp_imp,
        tp_emis: input.tp_emis,
        c_dv: input.c_dv,
        tp_amb: input.tp_amb,
        fin_nfe: input.fin_nfe,
        ind_final: input.ind_final,
        ind_pres: input.ind_pres,
        proc_emi: input.proc_emi,
        ver_proc: input.ver_proc,
    }
}

/// The values under which the changes of a caller are bound.
pub open spec fn encode_changes(changes: UpdateNFeIdentificationView) -> RowChangesView {
    RowChangesView {

        c_uf: changes.c_uf,
        c_nf: changes.c_nf,
        nat_op: changes.nat_op,
        mod_: changes.mod_,
        serie: changes.serie,
        n_nf: changes.n_nf,
        dh_emi: encode_optional_instant(changes.dh_emi),
        dh_sai_ent: encode_optional_instant(changes.dh_sai_ent),
        dh_cont: encode_optional_instant(changes.dh_cont),
        tp_nf: changes.tp_nf,
        id_dest: changes.id_dest,
        c_mun_fg: changes.c_mun_fg,
        tp_imp: changes.tp_imp,
        tp_emis: changes.tp_emis,
        c_dv: changes.c_dv,
        tp_amb: changes.tp_amb,
        fin_nfe: changes.fin_nfe,
        ind_final: changes.ind_final,
        ind_pres: changes.ind_pres,
        proc_emi: changes.proc_emi,
        ver_proc: changes.ver_proc,
    }
}

/// The view of what reading one row gave.
pub open spec fn record_result_view(result: Result<NFeIdentification, RepositoryError>) -> Result<
    NFeIdentificationView,
    RepositoryErrorView,
> {
    match result {
        Ok(record) => Ok(record@),
        Err(error) => Err(error@),
    }
}

/// The view of what reading several rows gave.
pub open spec fn records_result_view(
    result: Result<Vec<NFeIdentification>, RepositoryError>,
) -> Result<Seq<NFeIdentificationView>, RepositoryErrorView> {
    match result {
        Ok(records) => Ok(record_views(records@)),
        Err(error) => Err(error@),
    }
}

/// A failure among the first rows is the failure of the whole sequence.
pub proof fn lemma_decode_rows_failure_stays(rows: Seq<StoredRowView>, n: int)
    requires
        0 <= n <= rows.len(),
        decode_rows(rows.take(n)) is Err,
    ensures
        decode_rows(rows) == decode_rows(rows.take(n)),
    decreases rows.len() - n,
{
    if n < rows.len() {
        assert(rows.take(n + 1).drop_last() =~= rows.take(n));
        lemma_decode_rows_failure_stays(rows, n + 1);
    } else {
        assert(rows.take(n) =~= rows);
    }
}

fn copy_optional(text: &Option<String>) -> (r: Option<String>)
    ensures
        optional_text_view(r) == optional_text_view(*text),
{
    match text {
        Some(present) => Some(present.clone()),
        None => None,
    }
}

/// Reads one row of the backing store into a record.
pub fn row_to_record(row: &StoredRow) -> (r: Result<NFeIdentification, RepositoryError>)
    ensures
        record_result_view(r) == decode_row(row@),
{
    let key = match InternalKey::parse(row.internal_key.as_str()) {
        Some(key) => key,
        None => {
            return Err(RepositoryError::InvalidIdentifier(row.internal_key.clone()));
        },
    };
    let dh_emi = match Timestamp::from_column_text(row.dh_emi.as_str()) {
        Some(instant) => instant,
        None => {
            return Err(RepositoryError::ParseError(TemporalColumn::DhEmi, row.dh_emi.clone()));
        },
    };
    let dh_sai_ent = match optional_from_column_text(&row.dh_sai_ent) {
        Some(instant) => instant,
        None => {
            let text = match &row.dh_sai_ent {
                Some(text) => text.clone(),
                None => String::new(),
            };
            return Err(RepositoryError::ParseError(TemporalColumn::DhSaiEnt, text));
        },
    };
    let dh_cont = match optional_from_column_text(&row.dh_cont) {
        Some(instant) => instant,
        None => {
            let text = match &row.dh_cont {
                Some(text) => text.clone(),
                None => String::new(),
            };
            return Err(RepositoryError::ParseError(TemporalColumn::DhCont, text));
        },
    };
    let created_at = match Timestamp::from_column_text(row.created_at.as_str()) {
        Some(instant) => instant,
        None => {
            return Err(
                RepositoryError::ParseError(TemporalColumn::CreatedAt, row.created_at.clone()),
            );
        },
    };
    let updated_at = match Timestamp::from_column_text(row.updated_at.as_str()) {
        Some(instant) => instant,
        None => {
            return Err(
                RepositoryError::ParseError(TemporalColumn::UpdatedAt, row.updated_at.clone()),
            );
        },
    };
    Ok(
        NFeIdentification {
            internal_key: key.canonical(),

            c_uf: row.c_uf.clone(),
            c_nf: row.c_nf.clone(),
            nat_op: row.nat_op.clone(),
            mod_: row.mod_.clone(),
            serie: row.serie.clone(),
            n_nf: row.n_nf.clone(),
            dh_emi,
            dh_sai_ent,
            dh_cont,
            tp_nf: row.tp_nf.clone(),
            id_dest: row.id_dest.clone(),
            c_mun_fg: row.c_mun_fg.clone(),
            tp_imp: row.tp_imp.clone(),
            tp_emis: row.tp_emis.clone(),
            c_dv: row.c_dv.clone(),
            tp_amb: row.tp_amb.clone(),
            fin_nfe: row.fin_nfe.clone(),
            ind_final: row.ind_final.clone(),
            ind_pres: row.ind_pres.clone(),
            proc_emi: row.proc_emi.clone(),
            ver_proc: row.ver_proc.clone(),
            x_justificativa: None,
            created_at,
            updated_at,
        },
    )
}

/// Reads the rows of a page, in order, stopping at the first that cannot be read.
pub fn rows_to_records(rows: &Vec<StoredRow>) -> (r: Result<
    Vec<NFeIdentification>,
    RepositoryError,
>)
    ensures
        records_result_view(r) == decode_rows(row_views(rows@)),
{
    let mut records: Vec<NFeIdentification> = Vec::new();
    let mut i: usize = 0;
    proof {
        assert(record_views(records@) =~= Seq::empty());
        assert(row_views(rows@).take(0).len() == 0);
    }
    while i < rows.len()
        invariant
            i <= rows.len(),
            decode_rows(row_views(rows@).take(i as int)) == Ok::<
                Seq<NFeIdentificationView>,
                RepositoryErrorView,
            >(record_views(records@)),
        decreases rows.len() - i,
    {
        let ghost all = row_views(rows@);
        proof {
            assert(all.take(i + 1).drop_last() =~= all.take(i as int));
            assert(all.take(i + 1).last() == rows@[i as int]@);
        }
        match row_to_record(&rows[i]) {
            Ok(record) => {
                let ghost before = record_views(records@);
                records.push(record);
                proof {
                    assert(record_views(records@) =~= before.push(record@));
                }
            },
            Err(error) => {
                proof {
                    lemma_decode_rows_failure_stays(all, i + 1);
                }
                return Err(error);
            },
        }
        i = i + 1;
    }
    proof {
        assert(row_views(rows@).take(rows.len() as int) =~= row_views(rows@));
    }
    Ok(records)
}

/// Lays a new record out as the values of an insert, under a given key.
pub fn record_to_row(key: InternalKey, input: &CreateNFeIdentification) -> (r: RowValues)
    ensures
        r@ == encode_new(key.value, input@),
{
    RowValues {
        internal_key: key.storage_form(),

        c_uf: input.c_uf.clone(),
        c_nf: input.c_nf.clone(),
        nat_op: input.nat_op.clone(),
        mod_: input.mod_.clone(),
        serie: input.serie.clone(),
        n_nf: input.n_nf.clone(),
        dh_emi: input.dh_emi.to_column_text(),
        dh_sai_ent: optional_to_column_text(&input.dh_sai_ent),
        dh_cont: optional_to_column_text(&input.dh_cont),
        tp_nf: input.tp_nf.clone(),
        id_dest: input.id_dest.clone(),
        c_mun_fg: input.c_mun_fg.clone(),
        tp_imp: input.tp_imp.clone(),
        tp_emis: input.tp_emis.clone(),
        c_dv: input.c_dv.clone(),
        tp_amb: input.tp_amb.clone(),
        fin_nfe: input.fin_nfe.clone(),
        ind_final: input.ind_final.clone(),
        ind_pres: input.ind_pres.clone(),
        proc_emi: input.proc_emi.clone(),
        ver_proc: input.ver_proc.clone(),
    }
}

/// Lays the changes of a caller out as the values of an update.
pub fn changes_to_row(changes: &UpdateNFeIdentification) -> (r: RowChanges)
    ensures
        r@ == encode_changes(changes@),
{
    RowChanges {

        c_uf: copy_optional(&changes.c_uf),
        c_nf: copy_optional(&changes.c_nf),
        nat_op: copy_optional(&changes.nat_op),
        mod_: copy_optional(&changes.mod_),
        serie: copy_optional(&changes.serie),
        n_nf: copy_optional(&changes.n_nf),
        dh_emi: optional_to_column_text(&changes.dh_emi),
        dh_sai_ent: optional_to_column_text(&changes.dh_sai_ent),
        dh_cont: optional_to_column_text(&changes.dh_cont),
        tp_nf: copy_optional(&changes.tp_nf),
        id_dest: copy_optional(&changes.id_dest),
        c_mun_fg: copy_optional(&changes.c_mun_fg),
        tp_imp: copy_optional(&changes.tp_imp),
        tp_emis: copy_optional(&changes.tp_emis),
        c_dv: copy_optional(&changes.c_dv),
        tp_amb: copy_optional(&changes.tp_amb),
        fin_nfe: copy_optional(&changes.fin_nfe),
        ind_final: copy_optional(&changes.ind_final),
        ind_pres: copy_optional(&changes.ind_pres),
        proc_emi: copy_optional(&changes.proc_emi),
        ver_proc: copy_optional(&changes.ver_proc),
    }
}

} // verus!
