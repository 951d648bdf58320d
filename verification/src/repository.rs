//! The repository: every read and write of records, with the cache in front
//! of the backing store.
//!
//! The repository itself reaches neither the store nor the cache. Each
//! operation is laid out as a short run of decisions: a function says what
//! to ask for next, the caller asks, and hands the answer to the function
//! that follows. What the cache should hold after an operation comes back as
//! a list of effects beside the outcome; a caller carries them out and
//! overlooks their failures, so that the cache never fails a call.

use vstd::prelude::*;
use vstd::string::*;

use crate::cache::{
    item_cache_key, item_key, list_cache_key, list_key, CacheError, CACHE_TTL_SECS, LIST_PATTERN,
};
pub use crate::errors::{RepositoryError, RepositoryErrorView, StoreFailure, StoreFailureView};
use crate::identifier::{identifier_value, is_random_key, simple_form, InternalKey};
use crate::mapper::{
    changes_to_row, decode_row, decode_rows, encode_changes, encode_new, record_result_view,
    record_to_row, row_to_record, rows_to_records,
};
use crate::models::{
    record_views, row_views, CreateNFeIdentification, CreateNFeIdentificationView,
    NFeIdentification, NFeIdentificationView, StoredRow, StoredRowView, UpdateNFeIdentification,
};
use crate::query::{
    build_filtered_query, delete_statement, filtered_query, insert_statement, insert_values,
    select_by_key_statement, update_statement, update_values, FilteredQuery, ListFilters,
    ListFiltersView, SqlValueView, Statement, StatementView, DELETE, INSERT, SELECT_BY_KEY, UPDATE,
};
use crate::timestamp::{optional_text_view, survives_storage, Timestamp};

verus! {

/// Something the cache should do once an operation is through.
#[derive(Clone, Debug, PartialEq, Eq)]
pub enum CacheEffect {
    /// Store what the operation returned under `key`, to expire after
    /// `ttl_secs` seconds.
    Store { key: String, ttl_secs: u64 },
    /// Delete `target`, a key or a pattern.
    Delete { target: String },
}

pub enum CacheEffectView {
    Store { key: Seq<char>, ttl_secs: u64 },
    Delete { target: Seq<char> },
}

impl View for CacheEffect {
    type V = CacheEffectView;

    open spec fn view(&self) -> CacheEffectView {
        match self {
            CacheEffect::Store { key, ttl_secs } => CacheEffectView::Store {
                key: key@,
                ttl_secs: *ttl_secs,
            },
            CacheEffect::Delete { target } => CacheEffectView::Delete { target: target@ },
        }
    }
}

pub open spec fn effect_views(effects: Seq<CacheEffect>) -> Seq<CacheEffectView> {
    Seq::new(effects.len(), |i: int| effects[i]@)
}

/// How an operation ends: what it returns, and what the cache should do.
#[derive(Debug, PartialEq, Eq)]
pub struct Completion<T> {
    pub outcome: Result<T, RepositoryError>,
    pub effects: Vec<CacheEffect>,
}

/// How a listing begins: the key to look up in the cache, and the statements
/// to run where the cache has nothing.
#[derive(Clone, Debug, PartialEq, Eq)]
pub struct ListPlan {
    pub cache_key: String,
    pub query: FilteredQuery,
}

/// How a lookup by identifier goes on after the cache was asked.
#[derive(Debug, PartialEq, Eq)]
pub enum FindStep {
    /// The lookup is over.
    Done(Result<Option<NFeIdentification>, RepositoryError>),
    /// The row of this key has to be fetched from the backing store with
    /// this statement.
    Fetch { key: InternalKey, statement: Statement },
}

/// How a creation begins: the key of the new record, the statement that
/// inserts it, and the statement that reads it back.
#[derive(Clone, Debug, PartialEq, Eq)]
pub struct CreatePlan {
    pub key: InternalKey,
    pub insert: Statement,
    pub reread: Statement,
}

/// How an update begins: the key that the identifier denotes, the statement
/// that changes the row, and the statement that reads it back.
#[derive(Clone, Debug, PartialEq, Eq)]
pub struct UpdatePlan {
    pub key: InternalKey,
    pub update: Statement,
    pub reread: Statement,
}

/// How a deletion begins: the key that the identifier denotes, and the
/// statement that deletes the row.
#[derive(Clone, Debug, PartialEq, Eq)]
pub struct DeletePlan {
    pub key: InternalKey,
    pub statement: Statement,
}

/// What the cache contributed to a call: a value on a hit, nothing on a miss
/// and nothing on a failure.
pub open spec fn hit<T>(cached: Result<Option<T>, CacheError>) -> Option<T> {
    match cached {
        Ok(Some(value)) => Some(value),
        _ => None,
    }
}

/// The statement that selects the row of a key.
pub open spec fn select_by_key(key: u128) -> StatementView {
    StatementView { sql: SELECT_BY_KEY@, params: seq![SqlValueView::Text(simple_form(key))] }
}

/// How a lookup by identifier goes on after the cache was asked: a text
/// that is no identifier ends it at once, and so does a hit; otherwise the
/// store is asked.
pub open spec fn after_probe(id: Seq<char>, cached: Option<NFeIdentificationView>) -> Option<
    Result<Option<NFeIdentificationView>, RepositoryErrorView>,
> {
    match identifier_value(id) {
        None => Some(Err(RepositoryErrorView::InvalidIdentifier(id))),
        Some(_) => match cached {
            Some(record) => Some(Ok(Some(record))),
            None => None,
        },
    }
}

/// Whether the columns hold every instant of a new record exactly.
pub open spec fn is_storable(input: CreateNFeIdentificationView) -> bool {
    &&& survives_storage(input.dh_emi)
    &&& input.dh_sai_ent matches Some(instant) ==> survives_storage(instant)
    &&& input.dh_cont matches Some(instant) ==> survives_storage(instant)
}

/// Whether a new record is accepted: it names its federative unit, and the
/// columns hold each of its instants exactly.
pub open spec fn is_acceptable(input: CreateNFeIdentificationView) -> bool {
    input.c_uf.len() > 0 && is_storable(input)
}

/// What a lookup by identifier returns once the store has answered.
pub open spec fn after_fetch(fetched: Result<Option<StoredRowView>, StoreFailureView>) -> Result<
    Option<NFeIdentificationView>,
    RepositoryErrorView,
> {
    match fetched {
        Err(failure) => Err(RepositoryErrorView::BackingStoreError(failure)),
        Ok(None) => Ok(None),
        Ok(Some(row)) => match decode_row(row) {
            Ok(record) => Ok(Some(record)),
            Err(error) => Err(error),
        },
    }
}

/// What reading a row back after a write returns; `missing` is the error
/// for a row that is not there.
pub open spec fn after_reread(
    fetched: Result<Option<StoredRowView>, StoreFailureView>,
    missing: RepositoryErrorView,
) -> Result<NFeIdentificationView, RepositoryErrorView> {
    match fetched {
        Err(failure) => Err(RepositoryErrorView::BackingStoreError(failure)),
        Ok(None) => Err(missing),
        Ok(Some(row)) => decode_row(row),
    }
}

/// What a listing returns once both statements have run.
pub open spec fn after_select(total: u64, selected: Result<Seq<StoredRowView>, StoreFailureView>)
    -> Result<(Seq<NFeIdentificationView>, u64), RepositoryErrorView> {
    match selected {
        Err(failure) => Err(RepositoryErrorView::BackingStoreError(failure)),
        Ok(rows) => match decode_rows(rows) {
            Ok(records) => Ok((records, total)),
            Err(error) => Err(error),
        },
    }
}

/// What an update amounts to once its statement has run: a row that was
/// not there is a failure of its own, apart from those of the store.
pub open spec fn after_update(executed: Result<u64, StoreFailureView>) -> Result<
    (),
    RepositoryErrorView,
> {
    match executed {
        Err(failure) => Err(RepositoryErrorView::BackingStoreError(failure)),
        Ok(affected) => if affected == 0 {
            Err(RepositoryErrorView::UpdateFailed)
        } else {
            Ok(())
        },
    }
}

/// What a delete returns once its statement has run: deleting what is not
/// there is `NotFound`, never a success.
pub open spec fn after_delete(executed: Result<u64, StoreFailureView>) -> Result<
    (),
    RepositoryErrorView,
> {
    match executed {
        Err(failure) => Err(RepositoryErrorView::BackingStoreError(failure)),
        Ok(affected) => if affected == 0 {
            Err(RepositoryErrorView::NotFound)
        } else {
            Ok(())
        },
    }
}

/// The effect that stores the outcome under `key` for the usual time.
pub open spec fn store_effect(key: Seq<char>) -> Seq<CacheEffectView> {
    seq![CacheEffectView::Store { key, ttl_secs: CACHE_TTL_SECS }]
}

/// The effect that removes every cached listing.
pub open spec fn listings_effect() -> Seq<CacheEffectView> {
    seq![CacheEffectView::Delete { target: LIST_PATTERN@ }]
}

/// The effects after the record with a given key was changed or deleted:
/// its own entry goes, and every cached listing.
pub open spec fn invalidation_effects(key: u128) -> Seq<CacheEffectView> {
    seq![
        CacheEffectView::Delete { target: item_key(key) },
        CacheEffectView::Delete { target: LIST_PATTERN@ },
    ]
}

/// The effects of a listing: a page that was read is stored under its key.
pub open spec fn listing_effects(
    cache_key: Seq<char>,
    outcome: Result<(Seq<NFeIdentificationView>, u64), RepositoryErrorView>,
) -> Seq<CacheEffectView> {
    if outcome is Ok {
        store_effect(cache_key)
    } else {
        Seq::empty()
    }
}

/// The effects of a lookup that went to the store: a record that was found
/// is stored under its key.
pub open spec fn lookup_effects(
    key: u128,
    outcome: Result<Option<NFeIdentificationView>, RepositoryErrorView>,
) -> Seq<CacheEffectView> {
    if outcome matches Ok(Some(_)) {
        store_effect(item_key(key))
    } else {
        Seq::empty()
    }
}

/// The effects of a creation: once the record is read back, every cached
/// listing goes.
pub open spec fn creation_effects(
    outcome: Result<NFeIdentificationView, RepositoryErrorView>,
) -> Seq<CacheEffectView> {
    if outcome is Ok {
        listings_effect()
    } else {
        Seq::empty()
    }
}

/// The effects of an update: once the record is read back, its own entry
/// goes, and every cached listing.
pub open spec fn update_effects(
    key: u128,
    outcome: Result<NFeIdentificationView, RepositoryErrorView>,
) -> Seq<CacheEffectView> {
    if outcome is Ok {
        invalidation_effects(key)
    } else {
        Seq::empty()
    }
}

/// The effects of a deletion: whenever the statement ran, the entry of the
/// record goes, and every cached listing.
pub open spec fn deletion_effects(key: u128, executed: Result<u64, StoreFailureView>) -> Seq<
    CacheEffectView,
> {
    if executed is Ok {
        invalidation_effects(key)
    } else {
        Seq::empty()
    }
}

pub open spec fn item_result_view(
    result: Result<Option<NFeIdentification>, RepositoryError>,
) -> Result<Option<NFeIdentificationView>, RepositoryErrorView> {
    match result {
        Ok(Some(record)) => Ok(Some(record@)),
        Ok(None) => Ok(None),
        Err(error) => Err(error@),
    }
}

pub open spec fn page_result_view(
    result: Result<(Vec<NFeIdentification>, u64), RepositoryError>,
) -> Result<(Seq<NFeIdentificationView>, u64), RepositoryErrorView> {
    match result {
        Ok((records, total)) => Ok((record_views(records@), total)),
        Err(error) => Err(error@),
    }
}

pub open spec fn unit_result_view(result: Result<(), RepositoryError>) -> Result<
    (),
    RepositoryErrorView,
> {
    match result {
        Ok(()) => Ok(()),
        Err(error) => Err(error@),
    }
}

pub open spec fn fetched_view(fetched: Result<Option<StoredRow>, StoreFailure>) -> Result<
    Option<StoredRowView>,
    StoreFailureView,
> {
    match fetched {
        Ok(Some(row)) => Ok(Some(row@)),
        Ok(None) => Ok(None),
        Err(failure) => Err(failure@),
    }
}

pub open spec fn selected_view(selected: Result<Vec<StoredRow>, StoreFailure>) -> Result<
    Seq<StoredRowView>,
    StoreFailureView,
> {
    match selected {
        Ok(rows) => Ok(row_views(rows@)),
        Err(failure) => Err(failure@),
    }
}

pub open spec fn executed_view(executed: Result<u64, StoreFailure>) -> Result<
    u64,
    StoreFailureView,
> {
    match executed {
        Ok(affected) => Ok(affected),
        Err(failure) => Err(failure@),
    }
}

pub open spec fn cached_item_view(cached: Option<NFeIdentification>) -> Option<
    NFeIdentificationView,
> {
    match cached {
        Some(record) => Some(record@),
        None => None,
    }
}

fn no_effects() -> (r: Vec<CacheEffect>)
    ensures
        effect_views(r@) == Seq::<CacheEffectView>::empty(),
{
    let effects: Vec<CacheEffect> = Vec::new();
    proof {
        assert(effect_views(effects@) =~= Seq::<CacheEffectView>::empty());
    }
    effects
}

fn store_outcome(key: String) -> (r: Vec<CacheEffect>)
    ensures
        effect_views(r@) == store_effect(key@),
{
    let mut effects: Vec<CacheEffect> = Vec::new();
    effects.push(CacheEffect::Store { key, ttl_secs: CACHE_TTL_SECS });
    proof {
        assert(effect_views(effects@) =~= store_effect(key@));
    }
    effects
}

fn drop_listings() -> (r: Vec<CacheEffect>)
    ensures
        effect_views(r@) == listings_effect(),
{
    let mut effects: Vec<CacheEffect> = Vec::new();
    effects.push(CacheEffect::Delete { target: String::from_str(LIST_PATTERN) });
    proof {
        assert(effect_views(effects@) =~= listings_effect());
    }
    effects
}

fn drop_record_and_listings(key: InternalKey) -> (r: Vec<CacheEffect>)
    ensures
        effect_views(r@) == invalidation_effects(key.value),
{
    let mut effects: Vec<CacheEffect> = Vec::new();
    effects.push(CacheEffect::Delete { target: item_cache_key(key) });
    effects.push(CacheEffect::Delete { target: String::from_str(LIST_PATTERN) });
    proof {
        assert(effect_views(effects@) =~= invalidation_effects(key.value));
    }
    effects
}

fn optional_survives(instant: &Option<Timestamp>) -> (r: bool)
    ensures
        r == (*instant matches Some(t) ==> survives_storage(t@)),
{
    match instant {
        Some(t) => t.survives_storage(),
        None => true,
    }
}

fn storable(input: &CreateNFeIdentification) -> (r: bool)
    ensures
        r == is_storable(input@),
{
    input.dh_emi.survives_storage() && optional_survives(&input.dh_sai_ent) && optional_survives(
        &input.dh_cont,
    )
}

/// What the cache contributed to a call. A failure of the cache counts as a
/// miss: the backing store stays the way to an answer.
pub fn cache_hit<T>(cached: Result<Option<T>, CacheError>) -> (r: Option<T>)
    ensures
        r == hit(cached),
{
    match cached {
        Ok(Some(value)) => Some(value),
        _ => None,
    }
}

/// The repository of fiscal-document identifications.
#[derive(Clone, Copy, Debug, PartialEq, Eq)]
pub struct NFeIdentificationRepository {}

impl NFeIdentificationRepository {
    pub fn new() -> (r: NFeIdentificationRepository) {
        NFeIdentificationRepository {  }
    }

    /// Begins a listing: one page of the records that match the filters,
    /// newest emission first. Pages are counted from one.
    ///
    /// The plan holds the key under which the page is cached and the two
    /// statements that produce it; the key covers the page, the page size
    /// and every filter.
    pub fn find_all(
        &self,
        page: u32,
        page_size: u32,
        nat_op: Option<String>,
        n_nf: Option<String>,
        tp_nf: Option<String>,
        dh_emi: Option<String>,
        search: Option<String>,
    ) -> (r: ListPlan)
        requires
            page >= 1,
        ensures
            r.cache_key@ == list_key(
                page,
                page_size,
                (ListFiltersView {
                    nat_op: optional_text_view(nat_op),
                    n_nf: optional_text_view(n_nf),
                    tp_nf: optional_text_view(tp_nf),
                    dh_emi: optional_text_view(dh_emi),
                    search: optional_text_view(search),
                }),
            ),
            r.query@ == filtered_query(
                (ListFiltersView {
                    nat_op: optional_text_view(nat_op),
                    n_nf: optional_text_view(n_nf),
                    tp_nf: optional_text_view(tp_nf),
                    dh_emi: optional_text_view(dh_emi),
                    search: optional_text_view(search),
                }),
                page,
                page_size,
            ),
    {
        let filters = ListFilters { nat_op, n_nf, tp_nf, dh_emi, search };
        let cache_key = list_cache_key(page, page_size, &filters);
        let query = build_filtered_query(&filters, page, page_size);
        ListPlan { cache_key, query }
    }

    /// The number of rows that match, given what the count statement
    /// returned: zero where it returned no row.
    pub fn find_all_counted(&self, counted: Result<Option<u64>, StoreFailure>) -> (r: Result<
        u64,
        RepositoryError,
    >)
        ensures
            match counted {
                Ok(Some(total)) => r == Ok::<u64, RepositoryError>(total),
                Ok(None) => r == Ok::<u64, RepositoryError>(0),
                Err(failure) => r is Err && r->Err_0@ == RepositoryErrorView::BackingStoreError(
                    failure@,
                ),
            },
    {
        match counted {
            Ok(Some(total)) => Ok(total),
            Ok(None) => Ok(0),
            Err(failure) => Err(RepositoryError::BackingStoreError(failure)),
        }
    }

    /// Ends a listing, given the number of rows that match and what the
    /// select statement returned: the records of the page in the order of
    /// the rows, beside that number. A page that was read is stored in the
    /// cache under the key of the plan.
    pub fn find_all_selected(
        &self,
        cache_key: String,
        total: u64,
        selected: Result<Vec<StoredRow>, StoreFailure>,
    ) -> (r: Completion<(Vec<NFeIdentification>, u64)>)
        ensures
            page_result_view(r.outcome) == after_select(total, selected_view(selected)),
            effect_views(r.effects@) == listing_effects(cache_key@, page_result_view(r.outcome)),
    {
        match selected {
            Err(failure) => Completion {
                outcome: Err(RepositoryError::BackingStoreError(failure)),
                effects: no_effects(),
            },
            Ok(rows) => match rows_to_records(&rows) {
                Ok(records) => Completion {
                    outcome: Ok((records, total)),
                    effects: store_outcome(cache_key),
                },
                Err(error) => Completion { outcome: Err(error), effects: no_effects() },
            },
        }
    }

    /// Begins a lookup by identifier: the key under which the record is
    /// cached. The key is made of what the identifier denotes, so that every
    /// spelling of an identifier leads to the same entry; a text that is no
    /// identifier has no entry and is refused.
    pub fn find_by_id(&self, internal_key: &str) -> (r: Result<String, RepositoryError>)
        ensures
            match identifier_value(internal_key@) {
                Some(key) => r is Ok && r->Ok_0@ == item_key(key),
                None => r is Err && r->Err_0@ == RepositoryErrorView::InvalidIdentifier(
                    internal_key@,
                ),
            },
    {
        match InternalKey::parse(internal_key) {
            Some(key) => Ok(item_cache_key(key)),
            None => Err(RepositoryError::InvalidIdentifier(String::from_str(internal_key))),
        }
    }

    /// Goes on with a lookup by identifier, given what the cache returned
    /// under the key of the identifier. A hit ends the lookup; on a miss
    /// the row is fetched by its key.
    pub fn find_by_id_probed(
        &self,
        internal_key: &str,
        cached: Result<Option<NFeIdentification>, CacheError>,
    ) -> (r: FindStep)
        ensures
            match after_probe(internal_key@, cached_item_view(hit(cached))) {
                Some(result) => r is Done && item_result_view(r->Done_0) == result,
                None => {
                    &&& r is Fetch
                    &&& r->key.value == identifier_value(internal_key@)->0
                    &&& r->statement@ == select_by_key(identifier_value(internal_key@)->0)
                },
            },
    {
        match InternalKey::parse(internal_key) {
            None => FindStep::Done(
                Err(RepositoryError::InvalidIdentifier(String::from_str(internal_key))),
            ),
            Some(key) => match cache_hit(cached) {
                Some(record) => FindStep::Done(Ok(Some(record))),
                None => FindStep::Fetch {
                    key,
                    statement: select_by_key_statement(key.storage_form().as_str()),
                },
            },
        }
    }

    /// Ends a lookup by identifier, given what the store returned. A record
    /// that was found is stored in the cache under its key.
    pub fn find_by_id_fetched(
        &self,
        key: InternalKey,
        fetched: Result<Option<StoredRow>, StoreFailure>,
    ) -> (r: Completion<Option<NFeIdentification>>)
        ensures
            item_result_view(r.outcome) == after_fetch(fetched_view(fetched)),
            effect_views(r.effects@) == lookup_effects(key.value, item_result_view(r.outcome)),
    {
        match fetched {
            Err(failure) => Completion {
                outcome: Err(RepositoryError::BackingStoreError(failure)),
                effects: no_effects(),
            },
            Ok(None) => Completion { outcome: Ok(None), effects: no_effects() },
            Ok(Some(row)) => match row_to_record(&row) {
                Ok(record) => Completion {
                    outcome: Ok(Some(record)),
                    effects: store_outcome(item_cache_key(key)),
                },
                Err(error) => Completion { outcome: Err(error), effects: no_effects() },
            },
        }
    }

    /// Begins a creation under a key drawn at random.
    pub fn create(&self, identification: &CreateNFeIdentification) -> (r: Result<
        CreatePlan,
        RepositoryError,
    >)
        ensures
            match r {
                Ok(plan) => {
                    &&& is_acceptable(identification@)
                    &&& is_random_key(plan.key.value)
                    &&& plan.insert@.sql == INSERT@
                    &&& plan.insert@.params == insert_values(
                        encode_new(plan.key.value, identification@),
                    )
                    &&& plan.reread@ == select_by_key(plan.key.value)
                },
                Err(error) => !is_acceptable(identification@) && error@
                    == RepositoryErrorView::CreationFailed,
            },
    {
        self.create_with_key(InternalKey::mint(), identification)
    }

    /// Begins a creation under a given key. A record without a code of the
    /// federative unit is refused before anything is written, and so is a
    /// record with an instant that the columns would not give back as it is.
    pub fn create_with_key(&self, key: InternalKey, identification: &CreateNFeIdentification) -> (r:
        Result<CreatePlan, RepositoryError>)
        ensures
            match r {
                Ok(plan) => {
                    &&& is_acceptable(identification@)
                    &&& plan.key == key
                    &&& plan.insert@.sql == INSERT@
                    &&& plan.insert@.params == insert_values(encode_new(key.value, identification@))
                    &&& plan.reread@ == select_by_key(key.value)
                },
                Err(error) => !is_acceptable(identification@) && error@
                    == RepositoryErrorView::CreationFailed,
            },
    {
        if identification.c_uf.as_str().is_empty() || !storable(identification) {
            return Err(RepositoryError::CreationFailed);
        }
        let values = record_to_row(key, identification);
        let insert = insert_statement(&values);
        let reread = select_by_key_statement(values.internal_key.as_str());
        Ok(CreatePlan { key, insert, reread })
    }

    /// Goes on with a creation, given what the insert returned.
    pub fn create_inserted(&self, inserted: Result<u64, StoreFailure>) -> (r: Result<
        (),
        RepositoryError,
    >)
        ensures
            match inserted {
                Ok(_) => r is Ok,
                Err(failure) => r is Err && r->Err_0@ == RepositoryErrorView::BackingStoreError(
                    failure@,
                ),
            },
    {
        match inserted {
            Ok(_) => Ok(()),
            Err(failure) => Err(RepositoryError::BackingStoreError(failure)),
        }
    }

    /// Ends a creation, given what reading the row back returned: the record
    /// as the store holds it. A row that is not there is `CreationFailed`.
    /// Once the record is read, every cached listing goes.
    pub fn create_reread(&self, fetched: Result<Option<StoredRow>, StoreFailure>) -> (r: Completion<
        NFeIdentification,
    >)
        ensures
            record_result_view(r.outcome) == after_reread(
                fetched_view(fetched),
                RepositoryErrorView::CreationFailed,
            ),
            effect_views(r.effects@) == creation_effects(record_result_view(r.outcome)),
    {
        match fetched {
            Err(failure) => Completion {
                outcome: Err(RepositoryError::BackingStoreError(failure)),
                effects: no_effects(),
            },
            Ok(None) => Completion {
                outcome: Err(RepositoryError::CreationFailed),
                effects: no_effects(),
            },
            Ok(Some(row)) => match row_to_record(&row) {
                Ok(record) => Completion { outcome: Ok(record), effects: drop_listings() },
                Err(error) => Completion { outcome: Err(error), effects: no_effects() },
            },
        }
    }

    /// Begins an update of the record with a given identifier. Each column
    /// for which the caller supplies a value takes it; every other column
    /// keeps the value it has.
    pub fn update(&self, internal_key: &str, identification: &UpdateNFeIdentification) -> (r:
        Result<UpdatePlan, RepositoryError>)
        ensures
            match identifier_value(internal_key@) {
                Some(key) => {
                    &&& r is Ok
                    &&& r->Ok_0.key.value == key
                    &&& r->Ok_0.update@.sql == UPDATE@
                    &&& r->Ok_0.update@.params == update_values(
                        simple_form(key),
                        encode_changes(identification@),
                    )
                    &&& r->Ok_0.reread@ == select_by_key(key)
                },
                None => r is Err && r->Err_0@ == RepositoryErrorView::InvalidIdentifier(
                    internal_key@,
                ),
            },
    {
        match InternalKey::parse(internal_key) {
            None => Err(RepositoryError::InvalidIdentifier(String::from_str(internal_key))),
            Some(key) => {
                let stored_key = key.storage_form();
                let changes = changes_to_row(identification);
                let update = update_statement(stored_key.as_str(), &changes);
                let reread = select_by_key_statement(stored_key.as_str());
                Ok(UpdatePlan { key, update, reread })
            },
        }
    }

    /// Goes on with an update, given what the statement returned: the number
    /// of rows it changed, or the failure of the store.
    pub fn update_executed(&self, executed: Result<u64, StoreFailure>) -> (r: Result<
        (),
        RepositoryError,
    >)
        ensures
            unit_result_view(r) == after_update(executed_view(executed)),
    {
        match executed {
            Err(failure) => Err(RepositoryError::BackingStoreError(failure)),
            Ok(affected) => if affected == 0 {
                Err(RepositoryError::UpdateFailed)
            } else {
                Ok(())
            },
        }
    }

    /// Ends an update, given what reading the row back returned: the record
    /// as the store holds it now. Once the record is read, its entry in the
    /// cache goes, and every cached listing.
    pub fn update_reread(
        &self,
        key: InternalKey,
        fetched: Result<Option<StoredRow>, StoreFailure>,
    ) -> (r: Completion<NFeIdentification>)
        ensures
            record_result_view(r.outcome) == after_reread(
                fetched_view(fetched),
                RepositoryErrorView::UpdateFailed,
            ),
            effect_views(r.effects@) == update_effects(key.value, record_result_view(r.outcome)),
    {
        match fetched {
            Err(failure) => Completion {
                outcome: Err(RepositoryError::BackingStoreError(failure)),
                effects: no_effects(),
            },
            Ok(None) => Completion {
                outcome: Err(RepositoryError::UpdateFailed),
                effects: no_effects(),
            },
            Ok(Some(row)) => match row_to_record(&row) {
                Ok(record) => Completion {
                    outcome: Ok(record),
                    effects: drop_record_and_listings(key),
                },
                Err(error) => Completion { outcome: Err(error), effects: no_effects() },
            },
        }
    }

    /// Begins the deletion of the record with a given identifier.
    pub fn delete(&self, internal_key: &str) -> (r: Result<DeletePlan, RepositoryError>)
        ensures
            match identifier_value(internal_key@) {
                Some(key) => {
                    &&& r is Ok
                    &&& r->Ok_0.key.value == key
                    &&& r->Ok_0.statement@.sql == DELETE@
                    &&& r->Ok_0.statement@.params == seq![SqlValueView::Text(simple_form(key))]
                },
                None => r is Err && r->Err_0@ == RepositoryErrorView::InvalidIdentifier(
                    internal_key@,
                ),
            },
    {
        match InternalKey::parse(internal_key) {
            None => Err(RepositoryError::InvalidIdentifier(String::from_str(internal_key))),
            Some(key) => Ok(
                DeletePlan { key, statement: delete_statement(key.storage_form().as_str()) },
            ),
        }
    }

    /// Ends a deletion, given what the statement returned. Whenever the
    /// statement ran, the entry of the record goes from the cache, and
    /// every cached listing; a statement that found no row is `NotFound`.
    pub fn delete_executed(&self, key: InternalKey, executed: Result<u64, StoreFailure>) -> (r:
        Completion<()>)
        ensures
            unit_result_view(r.outcome) == after_delete(executed_view(executed)),
            effect_views(r.effects@) == deletion_effects(key.value, executed_view(executed)),
    {
        match executed {
            Err(failure) => Completion {
                outcome: Err(RepositoryError::BackingStoreError(failure)),
                effects: no_effects(),
            },
            Ok(affected) => Completion {
                outcome: if affected == 0 {
                    Err(RepositoryError::NotFound)
                } else {
                    Ok(())
                },
                effects: drop_record_and_listings(key),
            },
        }
    }
}

} // verus!
