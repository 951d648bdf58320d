//! The statements sent to the backing store.
//!
//! The text of a statement never holds a value that a caller supplied:
//! values travel as parameters, bound by name or by position.

use vstd::prelude::*;
use vstd::string::*;

use crate::models::{RowChanges, RowChangesView, RowValues, RowValuesView};
use crate::text::{join, joined, views};
use crate::timestamp::optional_text_view;

verus! {

/// The filters of a listing, each independently optional.
#[derive(Clone, Debug, PartialEq, Eq)]
pub struct ListFilters {
    /// A text that the nature of the operation contains.
    pub nat_op: Option<String>,
    /// A text that the document number contains.
    pub n_nf: Option<String>,
    /// The exact document type.
    pub tp_nf: Option<String>,
    /// The day of emission, as `YYYY-MM-DD`.
    pub dh_emi: Option<String>,
    /// A text that the nature of the operation, the document number or the
    /// document type contains.
    pub search: Option<String>,
}

pub struct ListFiltersView {
    pub nat_op: Option<Seq<char>>,
    pub n_nf: Option<Seq<char>>,
    pub tp_nf: Option<Seq<char>>,
    pub dh_emi: Option<Seq<char>>,
    pub search: Option<Seq<char>>,
}

impl View for ListFilters {
    type V = ListFiltersView;

    open spec fn view(&self) -> ListFiltersView {
        ListFiltersView {
            nat_op: optional_text_view(self.nat_op),
            n_nf: optional_text_view(self.n_nf),
            tp_nf: optional_text_view(self.tp_nf),
            dh_emi: optional_text_view(self.dh_emi),
            search: optional_text_view(self.search),
        }
    }
}

/// A value bound to a parameter of a statement.
#[derive(Clone, Debug, PartialEq, Eq)]
pub enum SqlValue {
    Text(String),
    Number(u64),
    Null,
}

pub enum SqlValueView {
    Text(Seq<char>),
    Number(u64),
    Null,
}

impl View for SqlValue {
    type V = SqlValueView;

    open spec fn view(&self) -> SqlValueView {
        match self {
            SqlValue::Text(text) => SqlValueView::Text(text@),
            SqlValue::Number(number) => SqlValueView::Number(*number),
            SqlValue::Null => SqlValueView::Null,
        }
    }
}

/// A value bound to a parameter by the parameter's name.
#[derive(Clone, Debug, PartialEq, Eq)]
pub struct Binding {
    pub name: String,
    pub value: SqlValue,
}

pub struct BindingView {
    pub name: Seq<char>,
    pub value: SqlValueView,
}

impl View for Binding {
    type V = BindingView;

    open spec fn view(&self) -> BindingView {
        BindingView { name: self.name@, value: self.value@ }
    }
}

/// A statement whose parameters are bound by position.
#[derive(Clone, Debug, PartialEq, Eq)]
pub struct Statement {
    pub sql: String,
    pub params: Vec<SqlValue>,
}

pub struct StatementView {
    pub sql: Seq<char>,
    pub params: Seq<SqlValueView>,
}

impl View for Statement {
    type V = StatementView;

    open spec fn view(&self) -> StatementView {
        StatementView { sql: self.sql@, params: value_views(self.params@) }
    }
}

/// The two statements of a filtered, paginated listing: one that counts the
/// rows that match and one that selects a page of them, newest emission first.
#[derive(Clone, Debug, PartialEq, Eq)]
pub struct FilteredQuery {
    pub count_sql: String,
    pub count_params: Vec<Binding>,
    pub select_sql: String,
    pub select_params: Vec<Binding>,
}

pub struct FilteredQueryView {
    pub count_sql: Seq<char>,
    pub count_params: Seq<BindingView>,
    pub select_sql: Seq<char>,
    pub select_params: Seq<BindingView>,
}

impl View for FilteredQuery {
    type V = FilteredQueryView;

    open spec fn view(&self) -> FilteredQueryView {
        FilteredQueryView {
            count_sql: self.count_sql@,
            count_params: binding_views(self.count_params@),
            select_sql: self.select_sql@,
            select_params: binding_views(self.select_params@),
        }
    }
}

pub open spec fn value_views(values: Seq<SqlValue>) -> Seq<SqlValueView> {
    Seq::new(values.len(), |i: int| values[i]@)
}

pub open spec fn binding_views(bindings: Seq<Binding>) -> Seq<BindingView> {
    Seq::new(bindings.len(), |i: int| bindings[i]@)
}

/// The count statement up to its `WHERE` clause.
pub const COUNT_HEAD: &'static str = "SELECT COUNT(*) as count FROM nfe_identifications ";

/// The select statement of a listing up to its `WHERE` clause.
pub const SELECT_HEAD: &'static str = r#"
            SELECT * FROM (
                SELECT a.*, ROWNUM rnum FROM (
                    SELECT 
                        RAWTOHEX(INTERNALKEY) as internal_key,
                        CUF as c_uf,
                        CNF as c_nf,
                        NATOP as nat_op,
                        MOD_ as mod_,
                        SERIE as serie,
                        NNF as n_nf,
                        TO_CHAR(DHEMI, 'YYYY-MM-DD HH24:MI:SS.FF3') as dh_emi,
                        TO_CHAR(DHSAIENT, 'YYYY-MM-DD HH24:MI:SS.FF3') as dh_sai_ent,
                        TPNF as tp_nf,
                        IDDEST as id_dest,
                        CMUNFG as c_mun_fg,
                        TPIMP as tp_imp,
                        TPEMIS as tp_emis,
                        CDV as c_dv,
                        TPAMB as tp_amb,
                        FINNFE as fin_nfe,
                        INDFINAL as ind_final,
                        INDPRES as ind_pres,
                        PROCEMI as proc_emi,
                        VERPROC as ver_proc,
                        TO_CHAR(DHCONT, 'YYYY-MM-DD HH24:MI:SS.FF3') as dh_cont,
                        TO_CHAR(CREATEDAT, 'YYYY-MM-DD HH24:MI:SS.FF3') as created_at,
                        TO_CHAR(UPDATEDAT, 'YYYY-MM-DD HH24:MI:SS.FF3') as updated_at
                    FROM nfe_identifications
                    "#;

/// The select statement of a listing behind its `WHERE` clause: the order,
/// newest emission first, and the window of the page.
pub const SELECT_TAIL: &'static str = r#"
                    ORDER BY DHEMI DESC
                ) a WHERE ROWNUM <= :offset + :page_size
            ) WHERE rnum > :offset
            "#;

/// The statement that selects one row by its key.
pub const SELECT_BY_KEY: &'static str = r#"
            SELECT 
                RAWTOHEX(INTERNALKEY),
                CUF,
                CNF,
                NATOP,
                MOD_,
                SERIE,
                NNF,
                TO_CHAR(DHEMI, 'YYYY-MM-DD HH24:MI:SS.FF3'),
                TO_CHAR(DHSAIENT, 'YYYY-MM-DD HH24:MI:SS.FF3'),
                TO_CHAR(DHCONT, 'YYYY-MM-DD HH24:MI:SS.FF3'),
                TPNF,
                IDDEST,
                CMUNFG,
                TPIMP,
                TPEMIS,
                CDV,
                TPAMB,
                FINNFE,
                INDFINAL,
                INDPRES,
                PROCEMI,
                VERPROC,
                TO_CHAR(CREATEDAT, 'YYYY-MM-DD HH24:MI:SS.FF3'),
                TO_CHAR(UPDATEDAT, 'YYYY-MM-DD HH24:MI:SS.FF3')
            FROM nfe_identifications
            WHERE INTERNALKEY = HEXTORAW(:1)
        "#;

/// The statement that inserts a row.
///
/// It names no audit column: the table must set the time of creation and
/// the time of the last update from the store's own clock when a row is
/// inserted.
pub const INSERT: &'static str = r#"
            INSERT INTO nfe_identifications (
                INTERNALKEY,
                CUF,
                CNF,
                NATOP,
                MOD_,
                SERIE,
                NNF,
                DHEMI,
                DHSAIENT,
                DHCONT,
                TPNF,
                IDDEST,
                CMUNFG,
                TPIMP,
                TPEMIS,
                CDV,
                TPAMB,
                FINNFE,
                INDFINAL,
                INDPRES,
                PROCEMI,
                VERPROC
            ) VALUES (
                HEXTORAW(:1),
                :2,
                :3,
                :4,
                :5,
                :6,
                :7,
                TO_TIMESTAMP(:8, 'YYYY-MM-DD HH24:MI:SS.FF3'),
                TO_TIMESTAMP(:9, 'YYYY-MM-DD HH24:MI:SS.FF3'),
                TO_TIMESTAMP(:10, 'YYYY-MM-DD HH24:MI:SS.FF3'),
                :11,
                :12,
                :13,
                :14,
                :15,
                :16,
                :17,
                :18,
                :19,
                :20,
                :21,
                :22
            )
        "#;

/// The statement that updates a row.
///
/// A column takes the value bound for it, or keeps its own where a null is
/// bound. The time of the last update is set from the store's own clock, and
/// the time of creation is not named, so it stays.
pub const UPDATE: &'static str = r#"
            UPDATE nfe_identifications
            SET
                CUF = NVL(:1, CUF),
                CNF = NVL(:2, CNF),
                NATOP = NVL(:3, NATOP),
                MOD_ = NVL(:4, MOD_),
                SERIE = NVL(:5, SERIE),
                NNF = NVL(:6, NNF),
                DHEMI = NVL(TO_TIMESTAMP(:7, 'YYYY-MM-DD HH24:MI:SS.FF3'), DHEMI),
                DHSAIENT = NVL(TO_TIMESTAMP(:8, 'YYYY-MM-DD HH24:MI:SS.FF3'), DHSAIENT),
                DHCONT = NVL(TO_TIMESTAMP(:9, 'YYYY-MM-DD HH24:MI:SS.FF3'), DHCONT),
                TPNF = NVL(:10, TPNF),
                IDDEST = NVL(:11, IDDEST),
                CMUNFG = NVL(:12, CMUNFG),
                TPIMP = NVL(:13, TPIMP),
                TPEMIS = NVL(:14, TPEMIS),
                CDV = NVL(:15, CDV),
                TPAMB = NVL(:16, TPAMB),
                FINNFE = NVL(:17, FINNFE),
                INDFINAL = NVL(:18, INDFINAL),
                INDPRES = NVL(:19, INDPRES),
                PROCEMI = NVL(:20, PROCEMI),
                VERPROC = NVL(:21, VERPROC),
                UPDATEDAT = SYSTIMESTAMP
            WHERE INTERNALKEY = HEXTORAW(:22)
        "#;

/// The statement that deletes one row by its key.
pub const DELETE: &'static str = "DELETE FROM nfe_identifications WHERE INTERNALKEY = HEXTORAW(:1)";

pub const NAT_OP_PREDICATE: &'static str = "NATOP LIKE :nat_op";

pub const N_NF_PREDICATE: &'static str = "NNF LIKE :n_nf";

pub const TP_NF_PREDICATE: &'static str = "TPNF = :tp_nf";

pub const DH_EMI_PREDICATE: &'static str = "TO_CHAR(DHEMI, 'YYYY-MM-DD') = :dh_emi";

pub const SEARCH_PREDICATE: &'static str =
    "(NATOP LIKE :search OR NNF LIKE :search OR TPNF LIKE :search)";

/// `items` with `item` behind it where `present` holds.
pub open spec fn with_optional<T>(items: Seq<T>, present: bool, item: T) -> Seq<T> {
    if present {
        items.push(item)
    } else {
        items
    }
}

/// The predicates of the filters that are present, in a fixed order.
///
/// Only the presence of a filter counts here, never its value.
pub open spec fn active_predicates(
    nat_op: bool,
    n_nf: bool,
    tp_nf: bool,
    dh_emi: bool,
    search: bool,
) -> Seq<Seq<char>> {
    with_optional(
        with_optional(
            with_optional(
                with_optional(
                    with_optional(Seq::empty(), nat_op, NAT_OP_PREDICATE@),
                    n_nf,
                    N_NF_PREDICATE@,
                ),
                tp_nf,
                TP_NF_PREDICATE@,
            ),
            dh_emi,
            DH_EMI_PREDICATE@,
        ),
        search,
        SEARCH_PREDICATE@,
    )
}

/// The `WHERE` clause for a list of predicates: all of them joined by `AND`,
/// and nothing at all where there is none.
pub open spec fn where_clause(predicates: Seq<Seq<char>>) -> Seq<char> {
    if predicates.len() == 0 {
        Seq::empty()
    } else {
        "WHERE "@ + joined(predicates, " AND "@)
    }
}

/// The `WHERE` clause of a listing under `filters`.
pub open spec fn filter_clause(filters: ListFiltersView) -> Seq<char> {
    where_clause(
        active_predicates(
            filters.nat_op is Some,
            filters.n_nf is Some,
            filters.tp_nf is Some,
            filters.dh_emi is Some,
            filters.search is Some,
        ),
    )
}

/// The pattern that matches every text that contains `text`.
pub open spec fn containing(text: Seq<char>) -> Seq<char> {
    "%"@ + text + "%"@
}

pub open spec fn text_binding(name: Seq<char>, text: Seq<char>) -> BindingView {
    BindingView { name, value: SqlValueView::Text(text) }
}

pub open spec fn number_binding(name: Seq<char>, number: u64) -> BindingView {
    BindingView { name, value: SqlValueView::Number(number) }
}

/// The values of the filters that are present, each bound to the parameter
/// that its predicate names.
pub open spec fn filter_bindings(filters: ListFiltersView) -> Seq<BindingView> {
    with_optional(
        with_optional(
            with_optional(
                with_optional(
                    with_optional(
                        Seq::empty(),
                        filters.nat_op is Some,
                        text_binding("nat_op"@, containing(filters.nat_op->0)),
                    ),
                    filters.n_nf is Some,
                    text_binding("n_nf"@, containing(filters.n_nf->0)),
                ),
                filters.tp_nf is Some,
                text_binding("tp_nf"@, filters.tp_nf->0),
            ),
            filters.dh_emi is Some,
            text_binding("dh_emi"@, filters.dh_emi->0),
        ),
        filters.search is Some,
        text_binding("search"@, containing(filters.search->0)),
    )
}

/// The number of rows that lie before page `page`, pages counted from one.
pub open spec fn page_offset(page: u32, page_size: u32) -> int {
    (page - 1) * page_size
}

/// The two statements of a listing.
pub open spec fn filtered_query(filters: ListFiltersView, page: u32, page_size: u32)
    -> FilteredQueryView {
    FilteredQueryView {
        count_sql: COUNT_HEAD@ + filter_clause(filters),
        count_params: filter_bindings(filters),
        select_sql: SELECT_HEAD@ + filter_clause(filters) + SELECT_TAIL@,
        select_params: filter_bindings(filters).push(
            number_binding("offset"@, page_offset(page, page_size) as u64),
        ).push(number_binding("page_size"@, page_size as u64)),
    }
}

/// The text of both statements depends on which filters are present and on
/// nothing else: whatever a caller puts into a filter, it reaches the
/// backing store as a bound value only.
pub proof fn lemma_statement_text_ignores_values(
    a: ListFiltersView,
    b: ListFiltersView,
    page_a: u32,
    size_a: u32,
    page_b: u32,
    size_b: u32,
)
    requires
        a.nat_op is Some == b.nat_op is Some,
        a.n_nf is Some == b.n_nf is Some,
        a.tp_nf is Some == b.tp_nf is Some,
        a.dh_emi is Some == b.dh_emi is Some,
        a.search is Some == b.search is Some,
    ensures
        filtered_query(a, page_a, size_a).count_sql == filtered_query(b, page_b, size_b).count_sql,
        filtered_query(a, page_a, size_a).select_sql == filtered_query(
            b,
            page_b,
            size_b,
        ).select_sql,
{
}

/// Without filters there is no `WHERE` clause, and nothing is bound for them.
pub proof fn lemma_no_filters_no_clause(filters: ListFiltersView)
    requires
        filters.nat_op is None,
        filters.n_nf is None,
        filters.tp_nf is None,
        filters.dh_emi is None,
        filters.search is None,
    ensures
        filter_clause(filters) == Seq::<char>::empty(),
        filter_bindings(filters) == Seq::<BindingView>::empty(),
{
}

/// The count statement and the select statement share one `WHERE` clause and
/// the bindings of the filters.
pub proof fn lemma_count_and_select_share_filters(
    filters: ListFiltersView,
    page: u32,
    page_size: u32,
)
    ensures
        filtered_query(filters, page, page_size).count_sql == COUNT_HEAD@ + filter_clause(filters),
        filtered_query(filters, page, page_size).select_sql == SELECT_HEAD@ + filter_clause(
            filters,
        ) + SELECT_TAIL@,
        filtered_query(filters, page, page_size).select_params.take(
            filtered_query(filters, page, page_size).count_params.len() as int,
        ) == filtered_query(filters, page, page_size).count_params,
{
    let q = filtered_query(filters, page, page_size);
    assert(q.select_params.take(q.count_params.len() as int) =~= q.count_params);
}

fn contains_pattern(text: &str) -> (r: String)
    ensures
        r@ == containing(text@),
{
    let mut pattern = String::from_str("%");
    pattern.append(text);
    pattern.append("%");
    pattern
}

fn bind_text(name: &str, text: String) -> (r: Binding)
    ensures
        r@ == text_binding(name@, text@),
{
    Binding { name: String::from_str(name), value: SqlValue::Text(text) }
}

fn bind_number(name: &str, number: u64) -> (r: Binding)
    ensures
        r@ == number_binding(name@, number),
{
    Binding { name: String::from_str(name), value: SqlValue::Number(number) }
}

fn filter_predicates(filters: &ListFilters) -> (r: Vec<String>)
    ensures
        views(r@) == active_predicates(
            filters@.nat_op is Some,
            filters@.n_nf is Some,
            filters@.tp_nf is Some,
            filters@.dh_emi is Some,
            filters@.search is Some,
        ),
{
    let mut predicates: Vec<String> = Vec::new();
    proof {
        assert(views(predicates@) =~= Seq::<Seq<char>>::empty());
    }

    if filters.nat_op.is_some() {
        let ghost before = views(predicates@);
        predicates.push(String::from_str(NAT_OP_PREDICATE));
        proof {
            assert(views(predicates@) =~= before.push(NAT_OP_PREDICATE@));
        }
    }

    if filters.n_nf.is_some() {
        let ghost before = views(predicates@);
        predicates.push(String::from_str(N_NF_PREDICATE));
        proof {
            assert(views(predicates@) =~= before.push(N_NF_PREDICATE@));
        }
    }

    if filters.tp_nf.is_some() {
        let ghost before = views(predicates@);
        predicates.push(String::from_str(TP_NF_PREDICATE));
        proof {
            assert(views(predicates@) =~= before.push(TP_NF_PREDICATE@));
        }
    }

    if filters.dh_emi.is_some() {
        let ghost before = views(predicates@);
        predicates.push(String::from_str(DH_EMI_PREDICATE));
        proof {
            assert(views(predicates@) =~= before.push(DH_EMI_PREDICATE@));
        }
    }

    if filters.search.is_some() {
        let ghost before = views(predicates@);
        predicates.push(String::from_str(SEARCH_PREDICATE));
        proof {
            assert(views(predicates@) =~= before.push(SEARCH_PREDICATE@));
        }
    }

    predicates
}

fn filter_params(filters: &ListFilters) -> (r: Vec<Binding>)
    ensures
        binding_views(r@) == filter_bindings(filters@),
{
    let mut params: Vec<Binding> = Vec::new();
    proof {
        assert(binding_views(params@) =~= Seq::<BindingView>::empty());
    }

    if let Some(value) = &filters.nat_op {
        let ghost before = binding_views(params@);
        let binding = bind_text("nat_op", contains_pattern(value.as_str()));
        params.push(binding);
        proof {
            assert(binding_views(params@) =~= before.push(binding@));
        }
    }

    if let Some(value) = &filters.n_nf {
        let ghost before = binding_views(params@);
        let binding = bind_text("n_nf", contains_pattern(value.as_str()));
        params.push(binding);
        proof {
            assert(binding_views(params@) =~= before.push(binding@));
        }
    }

    if let Some(value) = &filters.tp_nf {
        let ghost before = binding_views(params@);
        let binding = bind_text("tp_nf", value.clone());
        params.push(binding);
        proof {
            assert(binding_views(params@) =~= before.push(binding@));
        }
    }

    if let Some(value) = &filters.dh_emi {
        let ghost before = binding_views(params@);
        let binding = bind_text("dh_emi", value.clone());
        params.push(binding);
        proof {
            assert(binding_views(params@) =~= before.push(binding@));
        }
    }

    if let Some(value) = &filters.search {
        let ghost before = binding_views(params@);
        let binding = bind_text("search", contains_pattern(value.as_str()));
        params.push(binding);
        proof {
            assert(binding_views(params@) =~= before.push(binding@));
        }
    }

    params
}

/// Builds the count statement and the select statement of a listing.
///
/// Pages are counted from one; the select statement skips the rows of the
/// pages before `page` and takes at most `page_size` rows.
pub fn build_filtered_query(filters: &ListFilters, page: u32, page_size: u32) -> (r: FilteredQuery)
    requires
        page >= 1,
    ensures
        r@ == filtered_query(filters@, page, page_size),
{
    let predicates = filter_predicates(filters);
    let clause = if predicates.len() > 0 {
        let mut clause = String::from_str("WHERE ");
        let all = join(&predicates, " AND ");
        clause.append(all.as_str());
        clause
    } else {
        String::new()
    };
    assert(views(predicates@).len() == predicates@.len());
    assert(clause@ == filter_clause(filters@));
    let mut count_sql = String::from_str(COUNT_HEAD);
    count_sql.append(clause.as_str());
    let mut select_sql = String::from_str(SELECT_HEAD);
    select_sql.append(clause.as_str());
    select_sql.append(SELECT_TAIL);
    assert((page - 1) * page_size <= 0xffff_ffff * 0xffff_ffff) by (nonlinear_arith)
        requires
            1 <= page <= 0xffff_ffff,
            0 <= page_size <= 0xffff_ffff,
    ;
    let offset: u64 = (page as u64 - 1) * (page_size as u64);
    let count_params = filter_params(filters);
    let mut select_params = filter_params(filters);
    let ghost shared = binding_views(select_params@);
    let offset_binding = bind_number("offset", offset);
    select_params.push(offset_binding);
    let size_binding = bind_number("page_size", page_size as u64);
    select_params.push(size_binding);
    proof {
        assert(binding_views(select_params@) =~= shared.push(offset_binding@).push(
            size_binding@,
        ));
    }
    FilteredQuery { count_sql, count_params, select_sql, select_params }
}

/// The values of an insert in the order of its parameters.
pub open spec fn insert_values(values: RowValuesView) -> Seq<SqlValueView> {
    seq![
        SqlValueView::Text(values.internal_key),

        SqlValueView::Text(values.c_uf),
        SqlValueView::Text(values.c_nf),
        SqlValueView::Text(values.nat_op),
        SqlValueView::Text(values.mod_),
        SqlValueView::Text(values.serie),
        SqlValueView::Text(values.n_nf),
        SqlValueView::Text(values.dh_emi),
        optional_value(values.dh_sai_ent),
        optional_value(values.dh_cont),
        SqlValueView::Text(values.tp_nf),
        SqlValueView::Text(values.id_dest),
        SqlValueView::Text(values.c_mun_fg),
        SqlValueView::Text(values.tp_imp),
        SqlValueView::Text(values.tp_emis),
        SqlValueView::Text(values.c_dv),
        SqlValueView::Text(values.tp_amb),
        SqlValueView::Text(values.fin_nfe),
        SqlValueView::Text(values.ind_final),
        SqlValueView::Text(values.ind_pres),
        SqlValueView::Text(values.proc_emi),
        SqlValueView::Text(values.ver_proc),
    ]
}

/// The values of an update in the order of its parameters: one per column,
/// a null where the column keeps its value, and the key of the row last.
pub open spec fn update_values(key: Seq<char>, values: RowChangesView) -> Seq<SqlValueView> {
    seq![

        optional_value(values.c_uf),
        optional_value(values.c_nf),
        optional_value(values.nat_op),
        optional_value(values.mod_),
        optional_value(values.serie),
        optional_value(values.n_nf),
        optional_value(values.dh_emi),
        optional_value(values.dh_sai_ent),
        optional_value(values.dh_cont),
        optional_value(values.tp_nf),
        optional_value(values.id_dest),
        optional_value(values.c_mun_fg),
        optional_value(values.tp_imp),
        optional_value(values.tp_emis),
        optional_value(values.c_dv),
        optional_value(values.tp_amb),
        optional_value(values.fin_nfe),
        optional_value(values.ind_final),
        optional_value(values.ind_pres),
        optional_value(values.proc_emi),
        optional_value(values.ver_proc),
        SqlValueView::Text(key),
    ]
}

/// A text as a bound value: a null where there is none.
pub open spec fn optional_value(text: Option<Seq<char>>) -> SqlValueView {
    match text {
        Some(t) => SqlValueView::Text(t),
        None => SqlValueView::Null,
    }
}

fn optional_text(text: &Option<String>) -> (r: SqlValue)
    ensures
        r@ == optional_value(optional_text_view(*text)),
{
    match text {
        Some(present) => SqlValue::Text(present.clone()),
        None => SqlValue::Null,
    }
}

fn text_value(text: &String) -> (r: SqlValue)
    ensures
        r@ == SqlValueView::Text(text@),
{
    SqlValue::Text(text.clone())
}

fn key_statement(sql: &str, key: &str) -> (r: Statement)
    ensures
        r@.sql == sql@,
        r@.params == seq![SqlValueView::Text(key@)],
{
    let mut params: Vec<SqlValue> = Vec::new();
    let value = SqlValue::Text(String::from_str(key));
    params.push(value);
    proof {
        assert(value_views(params@) =~= seq![SqlValueView::Text(key@)]);
    }
    Statement { sql: String::from_str(sql), params }
}

/// The statement that selects the row with a given key, the key bound in the
/// form the store keeps.
pub fn select_by_key_statement(key: &str) -> (r: Statement)
    ensures
        r@.sql == SELECT_BY_KEY@,
        r@.params == seq![SqlValueView::Text(key@)],
{
    key_statement(SELECT_BY_KEY, key)
}

/// The statement that deletes the row with a given key.
pub fn delete_statement(key: &str) -> (r: Statement)
    ensures
        r@.sql == DELETE@,
        r@.params == seq![SqlValueView::Text(key@)],
{
    key_statement(DELETE, key)
}

/// The statement that inserts a row.
pub fn insert_statement(values: &RowValues) -> (r: Statement)
    ensures
        r@.sql == INSERT@,
        r@.params == insert_values(values@),
{
    let mut params: Vec<SqlValue> = Vec::new();
    params.push(text_value(&values.internal_key));

    params.push(text_value(&values.c_uf));
    params.push(text_value(&values.c_nf));
    params.push(text_value(&values.nat_op));
    params.push(text_value(&values.mod_));
    params.push(text_value(&values.serie));
    params.push(text_value(&values.n_nf));
    params.push(text_value(&values.dh_emi));
    params.push(optional_text(&values.dh_sai_ent));
    params.push(optional_text(&values.dh_cont));
    params.push(text_value(&values.tp_nf));
    params.push(text_value(&values.id_dest));
    params.push(text_value(&values.c_mun_fg));
    params.push(text_value(&values.tp_imp));
    params.push(text_value(&values.tp_emis));
    params.push(text_value(&values.c_dv));
    params.push(text_value(&values.tp_amb));
    params.push(text_value(&values.fin_nfe));
    params.push(text_value(&values.ind_final));
    params.push(text_value(&values.ind_pres));
    params.push(text_value(&values.proc_emi));
    params.push(text_value(&values.ver_proc));
    proof {
        assert(value_views(params@) =~= insert_values(values@));
    }
    Statement { sql: String::from_str(INSERT), params }
}

/// The statement that updates the row with a given key: each column takes
/// the value bound for it, or keeps its own where a null is bound.
pub fn update_statement(key: &str, changes: &RowChanges) -> (r: Statement)
    ensures
        r@.sql == UPDATE@,
        r@.params == update_values(key@, changes@),
{
    let mut params: Vec<SqlValue> = Vec::new();

    params.push(optional_text(&changes.c_uf));
    params.push(optional_text(&changes.c_nf));
    params.push(optional_text(&changes.nat_op));
    params.push(optional_text(&changes.mod_));
    params.push(optional_text(&changes.serie));
    params.push(optional_text(&changes.n_nf));
    params.push(optional_text(&changes.dh_emi));
    params.push(optional_text(&changes.dh_sai_ent));
    params.push(optional_text(&changes.dh_cont));
    params.push(optional_text(&changes.tp_nf));
    params.push(optional_text(&changes.id_dest));
    params.push(optional_text(&changes.c_mun_fg));
    params.push(optional_text(&changes.tp_imp));
    params.push(optional_text(&changes.tp_emis));
    params.push(optional_text(&changes.c_dv));
    params.push(optional_text(&changes.tp_amb));
    params.push(optional_text(&changes.fin_nfe));
    params.push(optional_text(&changes.ind_final));
    params.push(optional_text(&changes.ind_pres));
    params.push(optional_text(&changes.proc_emi));
    params.push(optional_text(&changes.ver_proc));
    params.push(SqlValue::Text(String::from_str(key)));
    proof {
        assert(value_views(params@) =~= update_values(key@, changes@));
    }
    Statement { sql: String::from_str(UPDATE), params }
}

} // verus!
