//! The record, the shapes in which callers supply it, and the shapes in
//! which the backing store holds it.

use vstd::prelude::*;

use crate::timestamp::{optional_instant_view, optional_text_view, Timestamp};

verus! {

/// The identification of one fiscal document, as the repository hands it out.
#[derive(Clone, Debug, PartialEq, Eq)]
pub struct NFeIdentification {
    /// The key of the record in canonical form.
    pub internal_key: String,
    /// Code of the federative unit.
    pub c_uf: String,
    /// Numeric control code.
    pub c_nf: String,
    /// Nature of the operation, as free text.
    pub nat_op: String,
    /// Model of the fiscal document.
    pub mod_: String,
    /// Series of the document.
    pub serie: String,
    /// Number of the document.
    pub n_nf: String,
    /// When the document was issued.
    pub dh_emi: Timestamp,
    /// When the goods left or came in, where that is known.
    pub dh_sai_ent: Option<Timestamp>,
    /// When contingency operation began, where there was one.
    pub dh_cont: Option<Timestamp>,
    /// Type of the document.
    pub tp_nf: String,
    /// Destination of the operation.
    pub id_dest: String,
    /// Municipality where the taxable event took place.
    pub c_mun_fg: String,
    /// Layout in which the document is printed.
    pub tp_imp: String,
    /// Way in which the document was issued.
    pub tp_emis: String,
    /// Check digit of the access key.
    pub c_dv: String,
    /// Environment: production or test.
    pub tp_amb: String,
    /// Purpose for which the document was issued.
    pub fin_nfe: String,
    /// Whether the operation is with a final consumer.
    pub ind_final: String,
    /// Presence of the buyer at the operation.
    pub ind_pres: String,
    /// Process by which the document was issued.
    pub proc_emi: String,
    /// Version of the issuing process.
    pub ver_proc: String,
    /// Why contingency operation began; the backing store keeps none.
    pub x_justificativa: Option<String>,
    /// When the backing store first wrote the record.
    pub created_at: Timestamp,
    /// When the backing store last wrote the record.
    pub updated_at: Timestamp,
}

pub struct NFeIdentificationView {
    pub internal_key: Seq<char>,
    pub c_uf: Seq<char>,
    pub c_nf: Seq<char>,
    pub nat_op: Seq<char>,
    pub mod_: Seq<char>,
    pub serie: Seq<char>,
    pub n_nf: Seq<char>,
    pub dh_emi: int,
    pub dh_sai_ent: Option<int>,
    pub dh_cont: Option<int>,
    pub tp_nf: Seq<char>,
    pub id_dest: Seq<char>,
    pub c_mun_fg: Seq<char>,
    pub tp_imp: Seq<char>,
    pub tp_emis: Seq<char>,
    pub c_dv: Seq<char>,
    pub tp_amb: Seq<char>,
    pub fin_nfe: Seq<char>,
    pub ind_final: Seq<char>,
    pub ind_pres: Seq<char>,
    pub proc_emi: Seq<char>,
    pub ver_proc: Seq<char>,
    pub x_justificativa: Option<Seq<char>>,
    pub created_at: int,
    pub updated_at: int,
}

impl View for NFeIdentification {
    type V = NFeIdentificationView;

    open spec fn view(&self) -> NFeIdentificationView {
        NFeIdentificationView {
            internal_key: self.internal_key@,
            c_uf: self.c_uf@,
            c_nf: self.c_nf@,
            nat_op: self.nat_op@,
            mod_: self.mod_@,
            serie: self.serie@,
            n_nf: self.n_nf@,
            dh_emi: self.dh_emi@,
            dh_sai_ent: optional_instant_view(self.dh_sai_ent),
            dh_cont: optional_instant_view(self.dh_cont),
            tp_nf: self.tp_nf@,
            id_dest: self.id_dest@,
            c_mun_fg: self.c_mun_fg@,
            tp_imp: self.tp_imp@,
            tp_emis: self.tp_emis@,
            c_dv: self.c_dv@,
            tp_amb: self.tp_amb@,
            fin_nfe: self.fin_nfe@,
            ind_final: self.ind_final@,
            ind_pres: self.ind_pres@,
            proc_emi: self.proc_emi@,
            ver_proc: self.ver_proc@,
            x_justificativa: optional_text_view(self.x_justificativa),
            created_at: self.created_at@,
            updated_at: self.updated_at@,
        }
    }
}

/// What a caller supplies to create a record.
///
/// The key and the audit timestamps are missing on purpose: the repository
/// mints the first and the backing store sets the others.
#[derive(Clone, Debug, PartialEq, Eq)]
pub struct CreateNFeIdentification {
    /// Code of the federative unit.
    pub c_uf: String,
    /// Numeric control code.
    pub c_nf: String,
    /// Nature of the operation, as free text.
    pub nat_op: String,
    /// Model of the fiscal document.
    pub mod_: String,
    /// Series of the document.
    pub serie: String,
    /// Number of the document.
    pub n_nf: String,
    /// When the document was issued.
    pub dh_emi: Timestamp,
    /// When the goods left or came in, where that is known.
    pub dh_sai_ent: Option<Timestamp>,
    /// When contingency operation began, where there was one.
    pub dh_cont: Option<Timestamp>,
    /// Type of the document.
    pub tp_nf: String,
    /// Destination of the operation.
    pub id_dest: String,
    /// Municipality where the taxable event took place.
    pub c_mun_fg: String,
    /// Layout in which the document is printed.
    pub tp_imp: String,
    /// Way in which the document was issued.
    pub tp_emis: String,
    /// Check digit of the access key.
    pub c_dv: String,
    /// Environment: production or test.
    pub tp_amb: String,
    /// Purpose for which the document was issued.
    pub fin_nfe: String,
    /// Whether the operation is with a final consumer.
    pub ind_final: String,
    /// Presence of the buyer at the operation.
    pub ind_pres: String,
    /// Process by which the document was issued.
    pub proc_emi: String,
    /// Version of the issuing process.
    pub ver_proc: String,
}

pub struct CreateNFeIdentificationView {
    pub c_uf: Seq<char>,
    pub c_nf: Seq<char>,
    pub nat_op: Seq<char>,
    pub mod_: Seq<char>,
    pub serie: Seq<char>,
    pub n_nf: Seq<char>,
    pub dh_emi: int,
    pub dh_sai_ent: Option<int>,
    pub dh_cont: Option<int>,
    pub tp_nf: Seq<char>,
    pub id_dest: Seq<char>,
    pub c_mun_fg: Seq<char>,
    pub tp_imp: Seq<char>,
    pub tp_emis: Seq<char>,
    pub c_dv: Seq<char>,
    pub tp_amb: Seq<char>,
    pub fin_nfe: Seq<char>,
    pub ind_final: Seq<char>,
    pub ind_pres: Seq<char>,
    pub proc_emi: Seq<char>,
    pub ver_proc: Seq<char>,
}

impl View for CreateNFeIdentification {
    type V = CreateNFeIdentificationView;

    open spec fn view(&self) -> CreateNFeIdentificationView {
        CreateNFeIdentificationView {
            c_uf: self.c_uf@,
            c_nf: self.c_nf@,
            nat_op: self.nat_op@,
            mod_: self.mod_@,
            serie: self.serie@,
            n_nf: self.n_nf@,
            dh_emi: self.dh_emi@,
            dh_sai_ent: optional_instant_view(self.dh_sai_ent),
            dh_cont: optional_instant_view(self.dh_cont),
            tp_nf: self.tp_nf@,
            id_dest: self.id_dest@,
            c_mun_fg: self.c_mun_fg@,
            tp_imp: self.tp_imp@,
            tp_emis: self.tp_emis@,
            c_dv: self.c_dv@,
            tp_amb: self.tp_amb@,
            fin_nfe: self.fin_nfe@,
            ind_final: self.ind_final@,
            ind_pres: self.ind_pres@,
            proc_emi: self.proc_emi@,
            ver_proc: self.ver_proc@,
        }
    }
}

/// What a caller supplies to change a record: one optional value per column.
///
/// A column left at `None` keeps the value it has in the backing store.
#[derive(Clone, Debug, PartialEq, Eq)]
pub struct UpdateNFeIdentification {
    pub c_uf: Option<String>,
    pub c_nf: Option<String>,
    pub nat_op: Option<String>,
    pub mod_: Option<String>,
    pub serie: Option<String>,
    pub n_nf: Option<String>,
    pub dh_emi: Option<Timestamp>,
    pub dh_sai_ent: Option<Timestamp>,
    pub dh_cont: Option<Timestamp>,
    pub tp_nf: Option<String>,
    pub id_dest: Option<String>,
    pub c_mun_fg: Option<String>,
    pub tp_imp: Option<String>,
    pub tp_emis: Option<String>,
    pub c_dv: Option<String>,
    pub tp_amb: Option<String>,
    pub fin_nfe: Option<String>,
    pub ind_final: Option<String>,
    pub ind_pres: Option<String>,
    pub proc_emi: Option<String>,
    pub ver_proc: Option<String>,
}

pub struct UpdateNFeIdentificationView {
    pub c_uf: Option<Seq<char>>,
    pub c_nf: Option<Seq<char>>,
    pub nat_op: Option<Seq<char>>,
    pub mod_: Option<Seq<char>>,
    pub serie: Option<Seq<char>>,
    pub n_nf: Option<Seq<char>>,
    pub dh_emi: Option<int>,
    pub dh_sai_ent: Option<int>,
    pub dh_cont: Option<int>,
    pub tp_nf: Option<Seq<char>>,
    pub id_dest: Option<Seq<char>>,
    pub c_mun_fg: Option<Seq<char>>,
    pub tp_imp: Option<Seq<char>>,
    pub tp_emis: Option<Seq<char>>,
    pub c_dv: Option<Seq<char>>,
    pub tp_amb: Option<Seq<char>>,
    pub fin_nfe: Option<Seq<char>>,
    pub ind_final: Option<Seq<char>>,
    pub ind_pres: Option<Seq<char>>,
    pub proc_emi: Option<Seq<char>>,
    pub ver_proc: Option<Seq<char>>,
}

impl View for UpdateNFeIdentification {
    type V = UpdateNFeIdentificationView;

    open spec fn view(&self) -> UpdateNFeIdentificationView {
        UpdateNFeIdentificationView {
            c_uf: optional_text_view(self.c_uf),
            c_nf: optional_text_view(self.c_nf),
            nat_op: optional_text_view(self.nat_op),
            mod_: optional_text_view(self.mod_),
            serie: optional_text_view(self.serie),
            n_nf: optional_text_view(self.n_nf),
            dh_emi: optional_instant_view(self.dh_emi),
            dh_sai_ent: optional_instant_view(self.dh_sai_ent),
            dh_cont: optional_instant_view(self.dh_cont),
            tp_nf: optional_text_view(self.tp_nf),
            id_dest: optional_text_view(self.id_dest),
            c_mun_fg: optional_text_view(self.c_mun_fg),
            tp_imp: optional_text_view(self.tp_imp),
            tp_emis: optional_text_view(self.tp_emis),
            c_dv: optional_text_view(self.c_dv),
            tp_amb: optional_text_view(self.tp_amb),
            fin_nfe: optional_text_view(self.fin_nfe),
            ind_final: optional_text_view(self.ind_final),
            ind_pres: optional_text_view(self.ind_pres),
            proc_emi: optional_text_view(self.proc_emi),
            ver_proc: optional_text_view(self.ver_proc),
        }
    }
}

/// One row as the backing store returns it: every column as text.
#[derive(Clone, Debug, PartialEq, Eq)]
pub struct StoredRow {
    /// The key as the store renders it: 32 hexadecimal digits.
    pub internal_key: String,
    pub c_uf: String,
    pub c_nf: String,
    pub nat_op: String,
    pub mod_: String,
    pub serie: String,
    pub n_nf: String,
    pub dh_emi: String,
    pub dh_sai_ent: Option<String>,
    pub dh_cont: Option<String>,
    pub tp_nf: String,
    pub id_dest: String,
    pub c_mun_fg: String,
    pub tp_imp: String,
    pub tp_emis: String,
    pub c_dv: String,
    pub tp_amb: String,
    pub fin_nfe: String,
    pub ind_final: String,
    pub ind_pres: String,
    pub proc_emi: String,
    pub ver_proc: String,
    pub created_at: String,
    pub updated_at: String,
}

pub struct StoredRowView {
    pub internal_key: Seq<char>,
    pub c_uf: Seq<char>,
    pub c_nf: Seq<char>,
    pub nat_op: Seq<char>,
    pub mod_: Seq<char>,
    pub serie: Seq<char>,
    pub n_nf: Seq<char>,
    pub dh_emi: Seq<char>,
    pub dh_sai_ent: Option<Seq<char>>,
    pub dh_cont: Option<Seq<char>>,
    pub tp_nf: Seq<char>,
    pub id_dest: Seq<char>,
    pub c_mun_fg: Seq<char>,
    pub tp_imp: Seq<char>,
    pub tp_emis: Seq<char>,
    pub c_dv: Seq<char>,
    pub tp_amb: Seq<char>,
    pub fin_nfe: Seq<char>,
    pub ind_final: Seq<char>,
    pub ind_pres: Seq<char>,
    pub proc_emi: Seq<char>,
    pub ver_proc: Seq<char>,
    pub created_at: Seq<char>,
    pub updated_at: Seq<char>,
}

impl View for StoredRow {
    type V = StoredRowView;

    open spec fn view(&self) -> StoredRowView {
        StoredRowView {
            internal_key: self.internal_key@,
            c_uf: self.c_uf@,
            c_nf: self.c_nf@,
            nat_op: self.nat_op@,
            mod_: self.mod_@,
            serie: self.serie@,
            n_nf: self.n_nf@,
            dh_emi: self.dh_emi@,
            dh_sai_ent: optional_text_view(self.dh_sai_ent),
            dh_cont: optional_text_view(self.dh_cont),
            tp_nf: self.tp_nf@,
            id_dest: self.id_dest@,
            c_mun_fg: self.c_mun_fg@,
            tp_imp: self.tp_imp@,
            tp_emis: self.tp_emis@,
            c_dv: self.c_dv@,
            tp_amb: self.tp_amb@,
            fin_nfe: self.fin_nfe@,
            ind_final: self.ind_final@,
            ind_pres: self.ind_pres@,
            proc_emi: self.proc_emi@,
            ver_proc: self.ver_proc@,
            created_at: self.created_at@,
            updated_at: self.updated_at@,
        }
    }
}

/// The values bound when a row is inserted, column by column, as text.
#[derive(Clone, Debug, PartialEq, Eq)]
pub struct RowValues {
    /// The key as 32 lower-case hexadecimal digits.
    pub internal_key: String,
    pub c_uf: String,
    pub c_nf: String,
    pub nat_op: String,
    pub mod_: String,
    pub serie: String,
    pub n_nf: String,
    pub dh_emi: String,
    pub dh_sai_ent: Option<String>,
    pub dh_cont: Option<String>,
    pub tp_nf: String,
    pub id_dest: String,
    pub c_mun_fg: String,
    pub tp_imp: String,
    pub tp_emis: String,
    pub c_dv: String,
    pub tp_amb: String,
    pub fin_nfe: String,
    pub ind_final: String,
    pub ind_pres: String,
    pub proc_emi: String,
    pub ver_proc: String,
}

pub struct RowValuesView {
    pub internal_key: Seq<char>,
    pub c_uf: Seq<char>,
    pub c_nf: Seq<char>,
    pub nat_op: Seq<char>,
    pub mod_: Seq<char>,
    pub serie: Seq<char>,
    pub n_nf: Seq<char>,
    pub dh_emi: Seq<char>,
    pub dh_sai_ent: Option<Seq<char>>,
    pub dh_cont: Option<Seq<char>>,
    pub tp_nf: Seq<char>,
    pub id_dest: Seq<char>,
    pub c_mun_fg: Seq<char>,
    pub tp_imp: Seq<char>,
    pub tp_emis: Seq<char>,
    pub c_dv: Seq<char>,
    pub tp_amb: Seq<char>,
    pub fin_nfe: Seq<char>,
    pub ind_final: Seq<char>,
    pub ind_pres: Seq<char>,
    pub proc_emi: Seq<char>,
    pub ver_proc: Seq<char>,
}

impl View for RowValues {
    type V = RowValuesView;

    open spec fn view(&self) -> RowValuesView {
        RowValuesView {
            internal_key: self.internal_key@,
            c_uf: self.c_uf@,
            c_nf: self.c_nf@,
            nat_op: self.nat_op@,
            mod_: self.mod_@,
            serie: self.serie@,
            n_nf: self.n_nf@,
            dh_emi: self.dh_emi@,
            dh_sai_ent: optional_text_view(self.dh_sai_ent),
            dh_cont: optional_text_view(self.dh_cont),
            tp_nf: self.tp_nf@,
            id_dest: self.id_dest@,
            c_mun_fg: self.c_mun_fg@,
            tp_imp: self.tp_imp@,
            tp_emis: self.tp_emis@,
            c_dv: self.c_dv@,
            tp_amb: self.tp_amb@,
            fin_nfe: self.fin_nfe@,
            ind_final: self.ind_final@,
            ind_pres: self.ind_pres@,
            proc_emi: self.proc_emi@,
            ver_proc: self.ver_proc@,
        }
    }
}

/// The values bound when a row is updated: `None` binds a null, which leaves
/// the column as it is.
#[derive(Clone, Debug, PartialEq, Eq)]
pub struct RowChanges {
    pub c_uf: Option<String>,
    pub c_nf: Option<String>,
    pub nat_op: Option<String>,
    pub mod_: Option<String>,
    pub serie: Option<String>,
    pub n_nf: Option<String>,
    pub dh_emi: Option<String>,
    pub dh_sai_ent: Option<String>,
    pub dh_cont: Option<String>,
    pub tp_nf: Option<String>,
    pub id_dest: Option<String>,
    pub c_mun_fg: Option<String>,
    pub tp_imp: Option<String>,
    pub tp_emis: Option<String>,
    pub c_dv: Option<String>,
    pub tp_amb: Option<String>,
    pub fin_nfe: Option<String>,
    pub ind_final: Option<String>,
    pub ind_pres: Option<String>,
    pub proc_emi: Option<String>,
    pub ver_proc: Option<String>,
}

pub struct RowChangesView {
    pub c_uf: Option<Seq<char>>,
    pub c_nf: Option<Seq<char>>,
    pub nat_op: Option<Seq<char>>,
    pub mod_: Option<Seq<char>>,
    pub serie: Option<Seq<char>>,
    pub n_nf: Option<Seq<char>>,
    pub dh_emi: Option<Seq<char>>,
    pub dh_sai_ent: Option<Seq<char>>,
    pub dh_cont: Option<Seq<char>>,
    pub tp_nf: Option<Seq<char>>,
    pub id_dest: Option<Seq<char>>,
    pub c_mun_fg: Option<Seq<char>>,
    pub tp_imp: Option<Seq<char>>,
    pub tp_emis: Option<Seq<char>>,
    pub c_dv: Option<Seq<char>>,
    pub tp_amb: Option<Seq<char>>,
    pub fin_nfe: Option<Seq<char>>,
    pub ind_final: Option<Seq<char>>,
    pub ind_pres: Option<Seq<char>>,
    pub proc_emi: Option<Seq<char>>,
    pub ver_proc: Option<Seq<char>>,
}

impl View for RowChanges {
    type V = RowChangesView;

    open spec fn view(&self) -> RowChangesView {
        RowChangesView {
            c_uf: optional_text_view(self.c_uf),
            c_nf: optional_text_view(self.c_nf),
            nat_op: optional_text_view(self.nat_op),
            mod_: optional_text_view(self.mod_),
            serie: optional_text_view(self.serie),
            n_nf: optional_text_view(self.n_nf),
            dh_emi: optional_text_view(self.dh_emi),
            dh_sai_ent: optional_text_view(self.dh_sai_ent),
            dh_cont: optional_text_view(self.dh_cont),
            tp_nf: optional_text_view(self.tp_nf),
            id_dest: optional_text_view(self.id_dest),
            c_mun_fg: optional_text_view(self.c_mun_fg),
            tp_imp: optional_text_view(self.tp_imp),
            tp_emis: optional_text_view(self.tp_emis),
            c_dv: optional_text_view(self.c_dv),
            tp_amb: optional_text_view(self.tp_amb),
            fin_nfe: optional_text_view(self.fin_nfe),
            ind_final: optional_text_view(self.ind_final),
            ind_pres: optional_text_view(self.ind_pres),
            proc_emi: optional_text_view(self.proc_emi),
            ver_proc: optional_text_view(self.ver_proc),
        }
    }
}

/// The views of a sequence of records, element by element.
pub open spec fn record_views(records: Seq<NFeIdentification>) -> Seq<NFeIdentificationView> {
    Seq::new(records.len(), |i: int| records[i]@)
}

/// The views of a sequence of rows, element by element.
pub open spec fn row_views(rows: Seq<StoredRow>) -> Seq<StoredRowView> {
    Seq::new(rows.len(), |i: int| rows[i]@)
}

} // verus!
