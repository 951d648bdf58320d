//! The backing store and the cache as plain maps, and what the repository
//! guarantees when its operations run against them.
//!
//! The store maps the key of a row, in the form in which it is bound, to the
//! row. The cache maps a key to an entry; entries do not expire here, which
//! is the case that is hardest on coherence. Neither fails here: what the
//! repository returns when they do is stated with each of its functions.
//! A run of an operation asks what the operation's functions say to ask for,
//! answers from the maps, and carries out the effects on the cache.

use vstd::prelude::*;

use crate::cache::{
    cache_after_delete, cache_after_set, is_pattern, item_key, lemma_list_key_is_injective,
    list_key, matches_pattern, removes, Cached, CACHE_TTL_SECS, LIST_PATTERN, LIST_PREFIX,
};
use crate::errors::{RepositoryErrorView, StoreFailureView, TemporalColumn};
use crate::handlers::{lemma_pages_needed, pages_needed};
use crate::identifier::{
    canonical_form, hex_digit_value, identifier_value, is_braced, is_hyphenated, is_simple,
    is_urn, lemma_canonical_form_reads_back, lemma_simple_form_reads_back, simple_form,
    strip_hyphens,
};
use crate::mapper::{decode_row, decode_rows, encode_changes, encode_new};
use crate::models::{
    CreateNFeIdentificationView, NFeIdentificationView, RowChangesView, RowValuesView,
    StoredRowView, UpdateNFeIdentificationView,
};
use crate::query::{page_offset, ListFiltersView};
use crate::repository::{
    after_delete, after_fetch, after_probe, after_reread, after_select, after_update,
    creation_effects, deletion_effects, invalidation_effects, is_acceptable, listing_effects,
    listings_effect, lookup_effects, store_effect, update_effects, CacheEffectView,
};
use crate::timestamp::decode_instant;

verus! {

/// The backing store and the cache, side by side.
pub struct Backend {
    /// The rows of the store, each under its key as 32 lower-case digits.
    pub rows: Map<Seq<char>, StoredRowView>,
    /// The entries of the cache.
    pub cache: Map<Seq<char>, Cached>,
}

/// The value of a column after an update: the new one where one was bound.
pub open spec fn coalesce(bound: Option<Seq<char>>, kept: Seq<char>) -> Seq<char> {
    match bound {
        Some(text) => text,
        None => kept,
    }
}

/// The value of a column that may be empty after an update.
pub open spec fn coalesce_optional(bound: Option<Seq<char>>, kept: Option<Seq<char>>) -> Option<
    Seq<char>,
> {
    match bound {
        Some(text) => Some(text),
        None => kept,
    }
}

/// The row that the store holds after an insert; `stamp` is the text of
/// the store's clock at that moment. The insert names no audit column: that
/// both take the store's clock is asked of the table.
pub open spec fn stored_row(values: RowValuesView, stamp: Seq<char>) -> StoredRowView {
    StoredRowView {
        internal_key: values.internal_key,
        c_uf: values.c_uf,
        c_nf: values.c_nf,
        nat_op: values.nat_op,
        mod_: values.mod_,
        serie: values.serie,
        n_nf: values.n_nf,
        dh_emi: values.dh_emi,
        dh_sai_ent: values.dh_sai_ent,
        dh_cont: values.dh_cont,
        tp_nf: values.tp_nf,
        id_dest: values.id_dest,
        c_mun_fg: values.c_mun_fg,
        tp_imp: values.tp_imp,
        tp_emis: values.tp_emis,
        c_dv: values.c_dv,
        tp_amb: values.tp_amb,
        fin_nfe: values.fin_nfe,
        ind_final: values.ind_final,
        ind_pres: values.ind_pres,
        proc_emi: values.proc_emi,
        ver_proc: values.ver_proc,
        created_at: stamp,
        updated_at: stamp,
    }
}

/// The row that the store holds after an update: each column takes what
/// was bound for it or keeps its value, the key and the time of creation
/// stay, and the time of the last update is the store's clock, as the
/// statement sets it; `stamp` is the text of that clock.
pub open spec fn changed_row(row: StoredRowView, changes: RowChangesView, stamp: Seq<char>)
    -> StoredRowView {
    StoredRowView {
        internal_key: row.internal_key,
        c_uf: coalesce(changes.c_uf, row.c_uf),
        c_nf: coalesce(changes.c_nf, row.c_nf),
        nat_op: coalesce(changes.nat_op, row.nat_op),
        mod_: coalesce(changes.mod_, row.mod_),
        serie: coalesce(changes.serie, row.serie),
        n_nf: coalesce(changes.n_nf, row.n_nf),
        dh_emi: coalesce(changes.dh_emi, row.dh_emi),
        dh_sai_ent: coalesce_optional(changes.dh_sai_ent, row.dh_sai_ent),
        dh_cont: coalesce_optional(changes.dh_cont, row.dh_cont),
        tp_nf: coalesce(changes.tp_nf, row.tp_nf),
        id_dest: coalesce(changes.id_dest, row.id_dest),
        c_mun_fg: coalesce(changes.c_mun_fg, row.c_mun_fg),
        tp_imp: coalesce(changes.tp_imp, row.tp_imp),
        tp_emis: coalesce(changes.tp_emis, row.tp_emis),
        c_dv: coalesce(changes.c_dv, row.c_dv),
        tp_amb: coalesce(changes.tp_amb, row.tp_amb),
        fin_nfe: coalesce(changes.fin_nfe, row.fin_nfe),
        ind_final: coalesce(changes.ind_final, row.ind_final),
        ind_pres: coalesce(changes.ind_pres, row.ind_pres),
        proc_emi: coalesce(changes.proc_emi, row.proc_emi),
        ver_proc: coalesce(changes.ver_proc, row.ver_proc),
        created_at: row.created_at,
        updated_at: stamp,
    }
}

/// The cache after one effect; `value` is what the operation returned, in
/// the shape of an entry, where it returned anything to store.
pub open spec fn apply_effect(
    cache: Map<Seq<char>, Cached>,
    effect: CacheEffectView,
    value: Option<Cached>,
) -> Map<Seq<char>, Cached> {
    match effect {
        CacheEffectView::Store { key, ttl_secs } => match value {
            Some(entry) => cache_after_set(cache, key, entry),
            None => cache,
        },
        CacheEffectView::Delete { target } => cache_after_delete(cache, target),
    }
}

/// The cache after a list of effects, carried out in order.
pub open spec fn apply_effects(
    cache: Map<Seq<char>, Cached>,
    effects: Seq<CacheEffectView>,
    value: Option<Cached>,
) -> Map<Seq<char>, Cached>
    decreases effects.len(),
{
    if effects.len() == 0 {
        cache
    } else {
        apply_effect(apply_effects(cache, effects.drop_last(), value), effects.last(), value)
    }
}

/// The record cached under `key`, if the entry there is a record.
pub open spec fn cached_item(cache: Map<Seq<char>, Cached>, key: Seq<char>) -> Option<
    NFeIdentificationView,
> {
    if cache.contains_key(key) {
        match cache[key] {
            Cached::Item(record) => Some(record),
            Cached::Page(_, _) => None,
        }
    } else {
        None
    }
}

/// The page cached under `key`, if the entry there is a page.
pub open spec fn cached_page(cache: Map<Seq<char>, Cached>, key: Seq<char>) -> Option<
    (Seq<NFeIdentificationView>, u64),
> {
    if cache.contains_key(key) {
        match cache[key] {
            Cached::Page(records, total) => Some((records, total)),
            Cached::Item(_) => None,
        }
    } else {
        None
    }
}

/// The rows of page `page` among `matching`, the rows that match the filters
/// in the order of the listing: those behind the rows of the pages before,
/// `page_size` of them at most.
pub open spec fn page_window<T>(matching: Seq<T>, page: u32, page_size: u32) -> Seq<T> {
    let first = page_offset(page, page_size);
    let from = if first < matching.len() {
        first
    } else {
        matching.len() as int
    };
    let to = if first + page_size < matching.len() {
        first + page_size
    } else {
        matching.len() as int
    };
    matching.subrange(from, to)
}

/// The number of rows on the first `pages` pages of a listing of `total` rows.
pub open spec fn rows_on_pages(total: int, page_size: int, pages: nat) -> int
    decreases pages,
{
    if pages == 0 {
        0
    } else {
        rows_on_pages(total, page_size, (pages - 1) as nat) + rows_on_page(
            total,
            page_size,
            pages as int,
        )
    }
}

/// The number of rows on page `page` of a listing of `total` rows.
pub open spec fn rows_on_page(total: int, page_size: int, page: int) -> int {
    let first = (page - 1) * page_size;
    if first >= total {
        0
    } else if first + page_size <= total {
        page_size
    } else {
        total - first
    }
}


/// The rows of the first `pages` pages of a listing, one page after the other.
pub open spec fn pages_joined<T>(matching: Seq<T>, page_size: u32, pages: nat) -> Seq<T>
    decreases pages,
{
    if pages == 0 {
        Seq::empty()
    } else {
        pages_joined(matching, page_size, (pages - 1) as nat) + page_window(
            matching,
            pages as u32,
            page_size,
        )
    }
}

/// Whether every page that the cache holds of the listing under `filters`
/// is the page that the store returns for it, `matching` being the rows that
/// match the filters in the order of the listing.
pub open spec fn listings_agree(
    cache: Map<Seq<char>, Cached>,
    filters: ListFiltersView,
    matching: Seq<StoredRowView>,
) -> bool {
    forall|page: u32, page_size: u32|
        page >= 1 ==> (#[trigger] cached_page(cache, list_key(page, page_size, filters))
            matches Some(found) ==> after_select(
            matching.len() as u64,
            Ok(page_window(matching, page, page_size)),
        ) == Ok::<(Seq<NFeIdentificationView>, u64), RepositoryErrorView>(found))
}

impl Backend {
    /// The row under a key, if the store holds one.
    pub open spec fn row(self, key: u128) -> Option<StoredRowView> {
        if self.rows.contains_key(simple_form(key)) {
            Some(self.rows[simple_form(key)])
        } else {
            None
        }
    }

    /// Neither the store nor the cache has seen the key.
    pub open spec fn is_new(self, key: u128) -> bool {
        !self.rows.contains_key(simple_form(key)) && !self.cache.contains_key(item_key(key))
    }

    /// A lookup by identifier: the cache first, under the key that the
    /// identifier denotes, and the store on a miss.
    pub open spec fn find_by_id(self, id: Seq<char>) -> (
        Result<Option<NFeIdentificationView>, RepositoryErrorView>,
        Backend,
    ) {
        let key = identifier_value(id)->0;
        match after_probe(id, cached_item(self.cache, item_key(key))) {
            Some(result) => (result, self),
            None => {
                let outcome = after_fetch(Ok(self.row(key)));
                let entry = match outcome {
                    Ok(Some(record)) => Some(Cached::Item(record)),
                    _ => None,
                };
                (
                    outcome,
                    Backend {
                        rows: self.rows,
                        cache: apply_effects(self.cache, lookup_effects(key, outcome), entry),
                    },
                )
            },
        }
    }

    /// A listing: the cache first; on a miss the store counts `matching`,
    /// the rows that match the filters in the order of the listing, and
    /// returns the rows of the page.
    pub open spec fn find_all(
        self,
        matching: Seq<StoredRowView>,
        page: u32,
        page_size: u32,
        filters: ListFiltersView,
    ) -> (Result<(Seq<NFeIdentificationView>, u64), RepositoryErrorView>, Backend) {
        let key = list_key(page, page_size, filters);
        match cached_page(self.cache, key) {
            Some(found) => (Ok(found), self),
            None => {
                let outcome = after_select(
                    matching.len() as u64,
                    Ok(page_window(matching, page, page_size)),
                );
                let entry = match outcome {
                    Ok((records, total)) => Some(Cached::Page(records, total)),
                    Err(_) => None,
                };
                (
                    outcome,
                    Backend {
                        rows: self.rows,
                        cache: apply_effects(self.cache, listing_effects(key, outcome), entry),
                    },
                )
            },
        }
    }

    /// A creation under `key`: a record that is accepted is inserted with
    /// the store's clock at `stamp`, then read back.
    pub open spec fn create(self, key: u128, input: CreateNFeIdentificationView, stamp: Seq<char>)
        -> (Result<NFeIdentificationView, RepositoryErrorView>, Backend) {
        if !is_acceptable(input) {
            (Err(RepositoryErrorView::CreationFailed), self)
        } else {
            let values = encode_new(key, input);
            let rows = self.rows.insert(values.internal_key, stored_row(values, stamp));
            let outcome = after_reread(
                Ok(Some(rows[simple_form(key)])),
                RepositoryErrorView::CreationFailed,
            );
            (
                outcome,
                Backend { rows, cache: apply_effects(self.cache, creation_effects(outcome), None) },
            )
        }
    }

    /// An update of the record with identifier `id`, with the store's clock
    /// at `stamp`: the row is changed, then read back.
    pub open spec fn update(
        self,
        id: Seq<char>,
        changes: UpdateNFeIdentificationView,
        stamp: Seq<char>,
    ) -> (Result<NFeIdentificationView, RepositoryErrorView>, Backend) {
        match identifier_value(id) {
            None => (Err(RepositoryErrorView::InvalidIdentifier(id)), self),
            Some(key) => match self.row(key) {
                None => match after_update(Ok(0)) {
                    Err(error) => (Err(error), self),
                    Ok(_) => (Err(RepositoryErrorView::UpdateFailed), self),
                },
                Some(row) => {
                    let rows = self.rows.insert(
                        simple_form(key),
                        changed_row(row, encode_changes(changes), stamp),
                    );
                    let outcome = after_reread(
                        Ok(Some(rows[simple_form(key)])),
                        RepositoryErrorView::UpdateFailed,
                    );
                    (
                        outcome,
                        Backend {
                            rows,
                            cache: apply_effects(self.cache, update_effects(key, outcome), None),
                        },
                    )
                },
            },
        }
    }

    /// A deletion of the record with identifier `id`.
    pub open spec fn delete(self, id: Seq<char>) -> (Result<(), RepositoryErrorView>, Backend) {
        match identifier_value(id) {
            None => (Err(RepositoryErrorView::InvalidIdentifier(id)), self),
            Some(key) => {
                let executed: Result<u64, StoreFailureView> = if self.rows.contains_key(
                    simple_form(key),
                ) {
                    Ok(1)
                } else {
                    Ok(0)
                };
                (
                    after_delete(executed),
                    Backend {
                        rows: self.rows.remove(simple_form(key)),
                        cache: apply_effects(self.cache, deletion_effects(key, executed), None),
                    },
                )
            },
        }
    }
}

/// The cache after the effects of a write on the record with a given key:
/// what is left is what deleting its entry and then every listing leaves.
pub proof fn lemma_invalidation(cache: Map<Seq<char>, Cached>, key: u128, value: Option<Cached>)
    ensures
        apply_effects(cache, invalidation_effects(key), value) == cache_after_delete(
            cache_after_delete(cache, item_key(key)),
            LIST_PATTERN@,
        ),
        apply_effects(cache, listings_effect(), value) == cache_after_delete(cache, LIST_PATTERN@),
        apply_effects(cache, Seq::empty(), value) == cache,
{
    let both = invalidation_effects(key);
    assert(both.drop_last() =~= seq![CacheEffectView::Delete { target: item_key(key) }]);
    assert(both.drop_last().drop_last() =~= Seq::<CacheEffectView>::empty());
    assert(apply_effects(cache, both.drop_last().drop_last(), value) == cache);
    assert(apply_effects(cache, both.drop_last(), value) == cache_after_delete(
        cache,
        item_key(key),
    ));
    assert(listings_effect().drop_last() =~= Seq::<CacheEffectView>::empty());
}

/// Storing one entry is the only effect of a read that went to the store.
pub proof fn lemma_store(cache: Map<Seq<char>, Cached>, key: Seq<char>, entry: Cached)
    ensures
        apply_effects(cache, store_effect(key), Some(entry)) == cache_after_set(
            cache,
            key,
            entry,
        ),
{
    let one = store_effect(key);
    assert(one.drop_last() =~= Seq::<CacheEffectView>::empty());
    assert(apply_effects(cache, one.drop_last(), Some(entry)) == cache);
    assert(one.last() == CacheEffectView::Store { key, ttl_secs: CACHE_TTL_SECS });
}

/// What a well-formed identifier looks like at its ends: it begins with a
/// hexadecimal digit, a brace or the letter of the URN prefix, and it ends
/// with a hexadecimal digit or a brace.
pub proof fn lemma_identifier_ends(id: Seq<char>)
    requires
        identifier_value(id) is Some,
    ensures
        id.len() >= 32,
        hex_digit_value(id[0]) is Some || id[0] == '{' || id[0] == 'u' || id[0] == 'U',
        hex_digit_value(id.last()) is Some || id.last() == '}',
{
    if is_simple(id) {
        assert(hex_digit_value(id[0]) is Some);
        assert(hex_digit_value(id[31]) is Some);
    } else if is_hyphenated(id) {
        let digits = strip_hyphens(id);
        assert(digits[0] == id[0]);
        assert(digits[31] == id[35]);
        assert(hex_digit_value(digits[0]) is Some);
        assert(hex_digit_value(digits[31]) is Some);
    } else if is_braced(id) {
    } else {
        assert(is_urn(id));
        assert(id.subrange(0, 9)[0] == id[0]);
        let inner = id.subrange(9, 45);
        let digits = strip_hyphens(inner);
        assert(digits[31] == inner[35]);
        assert(inner[35] == id[44]);
        assert(hex_digit_value(digits[31]) is Some);
    }
}

/// The cache key of a record is no pattern and no key of a listing, and
/// different keys have different cache keys.
pub proof fn lemma_item_keys(key: u128, other: u128)
    ensures
        !is_pattern(item_key(key)),
        !matches_pattern(item_key(key), LIST_PATTERN@),
        removes(item_key(key), item_key(other)) <==> other == key,
{
    reveal_strlit("nfe:");
    reveal_strlit("nfe:list:*");
    lemma_canonical_form_reads_back(key);
    lemma_canonical_form_reads_back(other);
    let id = canonical_form(key);
    let other_id = canonical_form(other);
    lemma_identifier_ends(id);
    let cache_key = item_key(key);
    assert(cache_key.len() == 4 + id.len());
    assert(cache_key.last() == id.last());
    assert(cache_key[4] == id[0]);
    let prefix = LIST_PATTERN@.drop_last();
    assert(prefix.len() == 9);
    assert(prefix[4] == 'l');
    if matches_pattern(cache_key, LIST_PATTERN@) {
        assert(cache_key.subrange(0, 9)[4] == prefix[4]);
    }
    if item_key(other) == cache_key {
        assert(other_id =~= item_key(other).subrange(4, 4 + other_id.len() as int));
        assert(id =~= cache_key.subrange(4, 4 + id.len() as int));
        assert(item_key(other).len() == 4 + other_id.len());
    }
}

/// The key of a listing is among the keys of the pattern of all listings.
pub proof fn lemma_list_keys(page: u32, page_size: u32, filters: ListFiltersView)
    ensures
        is_pattern(LIST_PATTERN@),
        removes(LIST_PATTERN@, list_key(page, page_size, filters)),
{
    reveal_strlit("nfe:list:");
    reveal_strlit("nfe:list:*");
    let key = list_key(page, page_size, filters);
    let prefix = LIST_PATTERN@.drop_last();
    assert(prefix =~= LIST_PREFIX@);
    assert(key.subrange(0, 9) =~= LIST_PREFIX@);
    assert(LIST_PATTERN@.last() == '*');
}

/// A record that was created is found under every spelling of the
/// identifier it was given, with every column as the caller supplied it.
///
/// The key must be new to the store and to the cache, and the record must
/// be one that creation accepts. Creation then succeeds exactly when the
/// store's clock reads as an instant. The record found is the record that
/// creation returned; its key is the canonical form of the key it was
/// created under, its coded columns and its instants are the caller's, it
/// has no justification, and both audit instants are the store's clock.
pub proof fn lemma_created_record_is_found(
    backend: Backend,
    key: u128,
    input: CreateNFeIdentificationView,
    stamp: Seq<char>,
    id: Seq<char>,
)
    requires
        backend.is_new(key),
        is_acceptable(input),
        identifier_value(id) == Some(key),
    ensures
        ({
            let (created, after) = backend.create(key, input, stamp);
            match decode_instant(stamp) {
                None => created == Err::<NFeIdentificationView, RepositoryErrorView>(
                    RepositoryErrorView::ParseError(TemporalColumn::CreatedAt, stamp),
                ),
                Some(now) => {
                    &&& created is Ok
                    &&& after.find_by_id(id).0 == Ok::<
                        Option<NFeIdentificationView>,
                        RepositoryErrorView,
                    >(Some(created->Ok_0))
                    &&& created->Ok_0.internal_key == canonical_form(key)
                    &&& created->Ok_0.c_uf == input.c_uf
                    &&& created->Ok_0.c_nf == input.c_nf
                    &&& created->Ok_0.nat_op == input.nat_op
                    &&& created->Ok_0.mod_ == input.mod_
                    &&& created->Ok_0.serie == input.serie
                    &&& created->Ok_0.n_nf == input.n_nf
                    &&& created->Ok_0.tp_nf == input.tp_nf
                    &&& created->Ok_0.id_dest == input.id_dest
                    &&& created->Ok_0.c_mun_fg == input.c_mun_fg
                    &&& created->Ok_0.tp_imp == input.tp_imp
                    &&& created->Ok_0.tp_emis == input.tp_emis
                    &&& created->Ok_0.c_dv == input.c_dv
                    &&& created->Ok_0.tp_amb == input.tp_amb
                    &&& created->Ok_0.fin_nfe == input.fin_nfe
                    &&& created->Ok_0.ind_final == input.ind_final
                    &&& created->Ok_0.ind_pres == input.ind_pres
                    &&& created->Ok_0.proc_emi == input.proc_emi
                    &&& created->Ok_0.ver_proc == input.ver_proc
                    &&& created->Ok_0.dh_emi == input.dh_emi
                    &&& created->Ok_0.dh_sai_ent == input.dh_sai_ent
                    &&& created->Ok_0.dh_cont == input.dh_cont
                    &&& created->Ok_0.x_justificativa is None
                    &&& created->Ok_0.created_at == now
                    &&& created->Ok_0.updated_at == now
                },
            }
        }),
{
    lemma_simple_form_reads_back(key);
    let (created, after) = backend.create(key, input, stamp);
    if created is Ok {
        lemma_invalidation(backend.cache, key, None);
        lemma_item_keys(key, key);
        assert(!after.cache.contains_key(item_key(key)));
        assert(after.rows.contains_key(simple_form(key)));
        lemma_store(after.cache, item_key(key), Cached::Item(created->Ok_0));
    }
}

/// An update that names only the nature of the operation leaves every other
/// column as it was, and the time of the last update is the store's clock.
///
/// Where the row read as `before` and the store's clock reads as an instant,
/// the update returns `before` with the new nature of the operation and
/// that instant as the time of the last update, and the row that the store
/// holds afterwards reads as the record returned. The time of the last
/// update is never the caller's; it moves forward whenever the store's
/// clock did.
pub proof fn lemma_update_keeps_other_columns(
    backend: Backend,
    id: Seq<char>,
    nat_op: Seq<char>,
    changes: UpdateNFeIdentificationView,
    stamp: Seq<char>,
)
    requires
        identifier_value(id) is Some,
        backend.row(identifier_value(id)->0) is Some,
        changes.nat_op == Some(nat_op),
        changes.c_uf is None,
        changes.c_nf is None,
        changes.mod_ is None,
        changes.serie is None,
        changes.n_nf is None,
        changes.dh_emi is None,
        changes.dh_sai_ent is None,
        changes.dh_cont is None,
        changes.tp_nf is None,
        changes.id_dest is None,
        changes.c_mun_fg is None,
        changes.tp_imp is None,
        changes.tp_emis is None,
        changes.c_dv is None,
        changes.tp_amb is None,
        changes.fin_nfe is None,
        changes.ind_final is None,
        changes.ind_pres is None,
        changes.proc_emi is None,
        changes.ver_proc is None,
    ensures
        ({
            let key = identifier_value(id)->0;
            let row = backend.row(key)->0;
            let (updated, after) = backend.update(id, changes, stamp);
            decode_row(row) matches Ok(before) ==> match decode_instant(stamp) {
                None => updated == Err::<NFeIdentificationView, RepositoryErrorView>(
                    RepositoryErrorView::ParseError(TemporalColumn::UpdatedAt, stamp),
                ),
                Some(now) => {
                    &&& updated is Ok
                    &&& after.row(key) is Some
                    &&& decode_row(after.row(key)->0) == updated
                    &&& updated->Ok_0.nat_op == nat_op
                    &&& updated->Ok_0.updated_at == now
                    &&& now > before.updated_at ==> updated->Ok_0.updated_at > before.updated_at
                    &&& updated->Ok_0.internal_key == before.internal_key
                    &&& updated->Ok_0.c_uf == before.c_uf
                    &&& updated->Ok_0.c_nf == before.c_nf
                    &&& updated->Ok_0.mod_ == before.mod_
                    &&& updated->Ok_0.serie == before.serie
                    &&& updated->Ok_0.n_nf == before.n_nf
                    &&& updated->Ok_0.dh_emi == before.dh_emi
                    &&& updated->Ok_0.dh_sai_ent == before.dh_sai_ent
                    &&& updated->Ok_0.dh_cont == before.dh_cont
                    &&& updated->Ok_0.tp_nf == before.tp_nf
                    &&& updated->Ok_0.id_dest == before.id_dest
                    &&& updated->Ok_0.c_mun_fg == before.c_mun_fg
                    &&& updated->Ok_0.tp_imp == before.tp_imp
                    &&& updated->Ok_0.tp_emis == before.tp_emis
                    &&& updated->Ok_0.c_dv == before.c_dv
                    &&& updated->Ok_0.tp_amb == before.tp_amb
                    &&& updated->Ok_0.fin_nfe == before.fin_nfe
                    &&& updated->Ok_0.ind_final == before.ind_final
                    &&& updated->Ok_0.ind_pres == before.ind_pres
                    &&& updated->Ok_0.proc_emi == before.proc_emi
                    &&& updated->Ok_0.ver_proc == before.ver_proc
                    &&& updated->Ok_0.x_justificativa == before.x_justificativa
                    &&& updated->Ok_0.created_at == before.created_at
                },
            }
        }),
{
    let key = identifier_value(id)->0;
    let row = backend.row(key)->0;
    let changed = changed_row(row, encode_changes(changes), stamp);
    assert(changed.dh_emi == row.dh_emi);
    assert(changed.dh_sai_ent == row.dh_sai_ent);
    assert(changed.dh_cont == row.dh_cont);
}

/// A read right after a write never returns what was there before the
/// write, whatever the cache held and however the identifier was spelled.
///
/// `id` and `other` are two spellings of one identifier. After an update
/// through `id` that succeeded, a lookup through `other` returns the record
/// that the update returned; after a deletion through `id`, it returns no
/// record.
pub proof fn lemma_read_after_write(
    backend: Backend,
    id: Seq<char>,
    other: Seq<char>,
    changes: UpdateNFeIdentificationView,
    stamp: Seq<char>,
)
    requires
        identifier_value(id) is Some,
        identifier_value(other) == identifier_value(id),
    ensures
        backend.update(id, changes, stamp).0 matches Ok(record) ==> backend.update(
            id,
            changes,
            stamp,
        ).1.find_by_id(other).0 == Ok::<Option<NFeIdentificationView>, RepositoryErrorView>(
            Some(record),
        ),
        backend.delete(id).1.find_by_id(other).0 == Ok::<
            Option<NFeIdentificationView>,
            RepositoryErrorView,
        >(None),
{
    let key = identifier_value(id)->0;
    lemma_item_keys(key, key);
    let (updated, after) = backend.update(id, changes, stamp);
    lemma_invalidation(backend.cache, key, None);
    if updated is Ok {
        assert(!after.cache.contains_key(item_key(key)));
        assert(after.rows.contains_key(simple_form(key)));
    }
    let gone = backend.delete(id).1;
    assert(!gone.cache.contains_key(item_key(key)));
    assert(!gone.rows.contains_key(simple_form(key)));
    lemma_invalidation(gone.cache, key, None);
}

/// After a write that succeeded, no listing is answered from the cache.
pub proof fn lemma_write_drops_listings(
    backend: Backend,
    key: u128,
    input: CreateNFeIdentificationView,
    id: Seq<char>,
    changes: UpdateNFeIdentificationView,
    stamp: Seq<char>,
    page: u32,
    page_size: u32,
    filters: ListFiltersView,
)
    ensures
        backend.create(key, input, stamp).0 is Ok ==> !backend.create(
            key,
            input,
            stamp,
        ).1.cache.contains_key(list_key(page, page_size, filters)),
        backend.update(id, changes, stamp).0 is Ok ==> !backend.update(
            id,
            changes,
            stamp,
        ).1.cache.contains_key(list_key(page, page_size, filters)),
        identifier_value(id) is Some ==> !backend.delete(id).1.cache.contains_key(
            list_key(page, page_size, filters),
        ),
{
    lemma_list_keys(page, page_size, filters);
    let listing = list_key(page, page_size, filters);
    lemma_invalidation(backend.cache, key, None);
    let created = backend.create(key, input, stamp);
    if created.0 is Ok {
        assert(created.1.cache == cache_after_delete(backend.cache, LIST_PATTERN@));
        assert(!created.1.cache.contains_key(listing));
    }
    if identifier_value(id) is Some {
        let changed = identifier_value(id)->0;
        lemma_invalidation(backend.cache, changed, None);
        let updated = backend.update(id, changes, stamp);
        if updated.0 is Ok {
            assert(updated.1.cache == cache_after_delete(
                cache_after_delete(backend.cache, item_key(changed)),
                LIST_PATTERN@,
            ));
            assert(!updated.1.cache.contains_key(listing));
        }
    }
}

/// Deleting one record leaves the cache entry of every other record alone.
pub proof fn lemma_delete_spares_other_records(backend: Backend, id: Seq<char>, other: Seq<char>)
    requires
        identifier_value(id) is Some,
        identifier_value(other) is Some,
        identifier_value(other) != identifier_value(id),
    ensures
        ({
            let spared = item_key(identifier_value(other)->0);
            &&& backend.delete(id).1.cache.contains_key(spared) == backend.cache.contains_key(
                spared,
            )
            &&& backend.cache.contains_key(spared) ==> backend.delete(id).1.cache[spared]
                == backend.cache[spared]
        }),
{
    let key = identifier_value(id)->0;
    let other_key = identifier_value(other)->0;
    lemma_invalidation(backend.cache, key, None);
    lemma_item_keys(key, other_key);
    lemma_item_keys(other_key, key);
}

/// Deleting what is already deleted is `NotFound`: no silent success, and
/// no failure of the store. The same holds of any record that is not there.
pub proof fn lemma_second_delete_is_not_found(backend: Backend, id: Seq<char>)
    requires
        identifier_value(id) is Some,
    ensures
        backend.delete(id).1.delete(id).0 == Err::<(), RepositoryErrorView>(
            RepositoryErrorView::NotFound,
        ),
        backend.row(identifier_value(id)->0) is None ==> backend.delete(id).0 == Err::<
            (),
            RepositoryErrorView,
        >(RepositoryErrorView::NotFound),
        backend.row(identifier_value(id)->0) is Some ==> backend.delete(id).0 == Ok::<
            (),
            RepositoryErrorView,
        >(()),
{
}

/// The rows of a page are as many as the count of its rows says.
pub proof fn lemma_page_window_len<T>(matching: Seq<T>, page: u32, page_size: u32)
    requires
        page >= 1,
    ensures
        page_window(matching, page, page_size).len() == rows_on_page(
            matching.len() as int,
            page_size as int,
            page as int,
        ),
{
    assert(page_offset(page, page_size) >= 0) by (nonlinear_arith)
        requires
            page >= 1,
            page_size >= 0,
    ;
}

/// The first `pages` pages hold `pages` times the page size rows, or all
/// rows where there are fewer.
pub proof fn lemma_rows_on_pages(total: int, page_size: int, pages: nat)
    requires
        total >= 0,
        page_size > 0,
    ensures
        rows_on_pages(total, page_size, pages) == if pages * page_size <= total {
            pages * page_size
        } else {
            total
        },
    decreases pages,
{
    if pages > 0 {
        lemma_rows_on_pages(total, page_size, (pages - 1) as nat);
        assert((pages - 1) * page_size == pages * page_size - page_size) by (nonlinear_arith);
    } else {
        assert(pages * page_size == 0) by (nonlinear_arith)
            requires
                pages == 0,
        ;
    }
}

/// The pages of a listing account for every row that matches, once each:
/// over the pages needed, the numbers of rows add up to the total.
pub proof fn lemma_pages_account_for_all_rows(total: int, page_size: int)
    requires
        total >= 0,
        page_size > 0,
    ensures
        pages_needed(total, page_size) >= 0,
        rows_on_pages(total, page_size, pages_needed(total, page_size) as nat) == total,
{
    lemma_pages_needed(total, page_size);
    let pages = pages_needed(total, page_size);
    assert(pages >= 0) by (nonlinear_arith)
        requires
            total >= 0,
            page_size > 0,
            total <= pages * page_size,
    ;
    lemma_rows_on_pages(total, page_size, pages as nat);
}

/// The first `pages` pages, one after the other, are the first rows that
/// match, in their order: as many as the pages hold, or all of them.
pub proof fn lemma_pages_joined<T>(matching: Seq<T>, page_size: u32, pages: nat)
    requires
        page_size > 0,
        pages <= u32::MAX,
    ensures
        pages_joined(matching, page_size, pages) == matching.take(
            if pages * page_size <= matching.len() {
                pages * page_size
            } else {
                matching.len() as int
            },
        ),
    decreases pages,
{
    if pages == 0 {
        assert(pages * page_size == 0) by (nonlinear_arith)
            requires
                pages == 0,
        ;
        assert(pages_joined(matching, page_size, pages) =~= matching.take(0));
    } else {
        let before = (pages - 1) as nat;
        lemma_pages_joined(matching, page_size, before);
        assert(before * page_size == pages * page_size - page_size) by (nonlinear_arith)
            requires
                before == pages - 1,
        ;
        assert(before * page_size >= 0) by (nonlinear_arith)
            requires
                before >= 0,
                page_size >= 0,
        ;
        assert(page_offset(pages as u32, page_size) == before * page_size);
        let joined = pages_joined(matching, page_size, before) + page_window(
            matching,
            pages as u32,
            page_size,
        );
        assert(joined =~= matching.take(
            if pages * page_size <= matching.len() {
                pages * page_size
            } else {
                matching.len() as int
            },
        ));
    }
}

/// Every row that matches stands on exactly one of the pages needed, in the
/// order of the listing: the pages, one after the other, are the rows.
pub proof fn lemma_pages_hold_every_row_once<T>(matching: Seq<T>, page_size: u32)
    requires
        page_size > 0,
        pages_needed(matching.len() as int, page_size as int) <= u32::MAX,
    ensures
        pages_needed(matching.len() as int, page_size as int) >= 0,
        pages_joined(
            matching,
            page_size,
            pages_needed(matching.len() as int, page_size as int) as nat,
        ) == matching,
{
    let total = matching.len() as int;
    lemma_pages_account_for_all_rows(total, page_size as int);
    lemma_pages_needed(total, page_size as int);
    let pages = pages_needed(total, page_size as int) as nat;
    lemma_pages_joined(matching, page_size, pages);
    assert(matching.take(total) =~= matching);
}

/// A cache without an entry for any page of a listing agrees with the store.
pub proof fn lemma_no_listing_agrees(
    cache: Map<Seq<char>, Cached>,
    filters: ListFiltersView,
    matching: Seq<StoredRowView>,
)
    requires
        forall|page: u32, page_size: u32|
            !cache.contains_key(#[trigger] list_key(page, page_size, filters)),
    ensures
        listings_agree(cache, filters, matching),
{
}

/// A listing returns the rows of its page, read in order, beside the number
/// of all rows that match, whether the cache answers or the store.
///
/// The cache must agree with the store on the listing, as it does where it
/// holds no page of it and after every listing asked before. Where the page
/// reads, it holds one record for each row that the page has; and the
/// cache agrees with the store afterwards.
pub proof fn lemma_listing_returns_its_page(
    backend: Backend,
    matching: Seq<StoredRowView>,
    page: u32,
    page_size: u32,
    filters: ListFiltersView,
)
    requires
        page >= 1,
        matching.len() <= u64::MAX,
        listings_agree(backend.cache, filters, matching),
    ensures
        ({
            let (found, after) = backend.find_all(matching, page, page_size, filters);
            &&& found == after_select(
                matching.len() as u64,
                Ok(page_window(matching, page, page_size)),
            )
            &&& listings_agree(after.cache, filters, matching)
            &&& found matches Ok((records, total)) ==> {
                &&& total == matching.len()
                &&& decode_rows(page_window(matching, page, page_size)) == Ok::<
                    Seq<NFeIdentificationView>,
                    RepositoryErrorView,
                >(records)
                &&& records.len() == rows_on_page(
                    matching.len() as int,
                    page_size as int,
                    page as int,
                )
            }
        }),
{
    let key = list_key(page, page_size, filters);
    let (found, after) = backend.find_all(matching, page, page_size, filters);
    lemma_page_window_len(matching, page, page_size);
    lemma_decode_rows_len(page_window(matching, page, page_size));
    if cached_page(backend.cache, key) is None && found is Ok {
        let entry = Cached::Page(found->Ok_0.0, found->Ok_0.1);
        lemma_store(backend.cache, key, entry);
        assert forall|other_page: u32, other_size: u32| other_page >= 1 implies (
        #[trigger] cached_page(after.cache, list_key(other_page, other_size, filters))
            matches Some(held) ==> after_select(
            matching.len() as u64,
            Ok(page_window(matching, other_page, other_size)),
        ) == Ok::<(Seq<NFeIdentificationView>, u64), RepositoryErrorView>(held)) by {
            let other_key = list_key(other_page, other_size, filters);
            if other_key == key {
                lemma_list_key_is_injective(
                    other_page,
                    other_size,
                    filters,
                    page,
                    page_size,
                    filters,
                );
            } else {
                assert(cached_page(after.cache, other_key) == cached_page(
                    backend.cache,
                    other_key,
                ));
            }
        }
    }
}

/// Two listings that differ in the page, the page size or a filter never
/// share an entry of the cache: what one stored, the other does not read.
pub proof fn lemma_listings_do_not_share_entries(
    cache: Map<Seq<char>, Cached>,
    page: u32,
    page_size: u32,
    filters: ListFiltersView,
    other_page: u32,
    other_size: u32,
    other_filters: ListFiltersView,
    entry: Cached,
)
    requires
        page != other_page || page_size != other_size || filters != other_filters,
    ensures
        cached_page(
            cache_after_set(cache, list_key(page, page_size, filters), entry),
            list_key(other_page, other_size, other_filters),
        ) == cached_page(cache, list_key(other_page, other_size, other_filters)),
{
    if list_key(page, page_size, filters) == list_key(other_page, other_size, other_filters) {
        lemma_list_key_is_injective(
            page,
            page_size,
            filters,
            other_page,
            other_size,
            other_filters,
        );
    }
}

/// A page that reads holds one record for each of its rows.
pub proof fn lemma_decode_rows_len(rows: Seq<StoredRowView>)
    ensures
        decode_rows(rows) matches Ok(records) ==> records.len() == rows.len(),
    decreases rows.len(),
{
    if rows.len() > 0 {
        lemma_decode_rows_len(rows.drop_last());
    }
}

} // verus!
