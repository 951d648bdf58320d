use std::collections::BTreeMap;

use nfe_repository::cache::{item_cache_key, list_cache_key, CacheError, CacheService, Fetched};
use nfe_repository::errors::{RepositoryError, StoreFailure};
use nfe_repository::identifier::InternalKey;
use nfe_repository::models::{
    CreateNFeIdentification, NFeIdentification, StoredRow, UpdateNFeIdentification,
};
use nfe_repository::query::{Binding, FilteredQuery, ListFilters, SqlValue, Statement};
use nfe_repository::repository::{CacheEffect, FindStep, NFeIdentificationRepository};
use nfe_repository::timestamp::Timestamp;

#[derive(Clone, Debug, PartialEq)]
enum Entry {
    Item(NFeIdentification),
    Page(Vec<NFeIdentification>, u64),
}

/// A store and a cache in memory, which answer as the real ones are said to.
struct World {
    rows: Vec<StoredRow>,
    cache: BTreeMap<String, Entry>,
    clock: i64,
    store_reads: usize,
}

fn text_of(value: &SqlValue) -> Option<String> {
    match value {
        SqlValue::Text(text) => Some(text.clone()),
        SqlValue::Null => None,
        SqlValue::Number(_) => panic!("a number where a text belongs"),
    }
}

fn bound<'a>(bindings: &'a [Binding], name: &str) -> Option<&'a SqlValue> {
    bindings.iter().rev().find(|b| b.name == name).map(|b| &b.value)
}

fn like(pattern: &str, value: &str) -> bool {
    let inner = pattern.strip_prefix('%').and_then(|p| p.strip_suffix('%')).expect("a pattern");
    value.contains(inner)
}

impl World {
    fn new() -> World {
        World { rows: Vec::new(), cache: BTreeMap::new(), clock: 1_704_200_000_000, store_reads: 0 }
    }

    fn stamp(&mut self) -> String {
        self.clock += 1_000;
        Timestamp::from_millis(self.clock).unwrap().to_column_text()
    }

    fn position(&self, key: &str) -> Option<usize> {
        self.rows.iter().position(|row| row.internal_key.eq_ignore_ascii_case(key))
    }

    fn select_by_key(&mut self, statement: &Statement) -> Option<StoredRow> {
        self.store_reads += 1;
        let key = text_of(&statement.params[0]).unwrap();
        self.position(&key).map(|i| self.rows[i].clone())
    }

    fn store_insert(&mut self, statement: &Statement) -> u64 {
        let p: Vec<Option<String>> = statement.params.iter().map(text_of).collect();
        assert_eq!(p.len(), 22);
        let stamp = self.stamp();
        let need = |i: usize| p[i].clone().expect("a value");
        self.rows.push(StoredRow {
            internal_key: need(0).to_uppercase(),
            c_uf: need(1),
            c_nf: need(2),
            nat_op: need(3),
            mod_: need(4),
            serie: need(5),
            n_nf: need(6),
            dh_emi: need(7),
            dh_sai_ent: p[8].clone(),
            dh_cont: p[9].clone(),
            tp_nf: need(10),
            id_dest: need(11),
            c_mun_fg: need(12),
            tp_imp: need(13),
            tp_emis: need(14),
            c_dv: need(15),
            tp_amb: need(16),
            fin_nfe: need(17),
            ind_final: need(18),
            ind_pres: need(19),
            proc_emi: need(20),
            ver_proc: need(21),
            created_at: stamp.clone(),
            updated_at: stamp,
        });
        1
    }

    fn store_update(&mut self, statement: &Statement) -> u64 {
        let p: Vec<Option<String>> = statement.params.iter().map(text_of).collect();
        assert_eq!(p.len(), 22);
        let Some(i) = self.position(p[21].as_ref().unwrap()) else {
            return 0;
        };
        let stamp = self.stamp();
        let row = &mut self.rows[i];
        let keep = |new: &Option<String>, old: &mut String| {
            if let Some(new) = new {
                *old = new.clone();
            }
        };
        keep(&p[0], &mut row.c_uf);
        keep(&p[1], &mut row.c_nf);
        keep(&p[2], &mut row.nat_op);
        keep(&p[3], &mut row.mod_);
        keep(&p[4], &mut row.serie);
        keep(&p[5], &mut row.n_nf);
        keep(&p[6], &mut row.dh_emi);
        if p[7].is_some() {
            row.dh_sai_ent = p[7].clone();
        }
        if p[8].is_some() {
            row.dh_cont = p[8].clone();
        }
        keep(&p[9], &mut row.tp_nf);
        keep(&p[10], &mut row.id_dest);
        keep(&p[11], &mut row.c_mun_fg);
        keep(&p[12], &mut row.tp_imp);
        keep(&p[13], &mut row.tp_emis);
        keep(&p[14], &mut row.c_dv);
        keep(&p[15], &mut row.tp_amb);
        keep(&p[16], &mut row.fin_nfe);
        keep(&p[17], &mut row.ind_final);
        keep(&p[18], &mut row.ind_pres);
        keep(&p[19], &mut row.proc_emi);
        keep(&p[20], &mut row.ver_proc);
        row.updated_at = stamp;
        1
    }

    fn store_delete(&mut self, statement: &Statement) -> u64 {
        let key = text_of(&statement.params[0]).unwrap();
        match self.position(&key) {
            Some(i) => {
                self.rows.remove(i);
                1
            }
            None => 0,
        }
    }

    fn matching(&self, bindings: &[Binding]) -> Vec<StoredRow> {
        let text = |name: &str| bound(bindings, name).map(|v| text_of(v).unwrap());
        let mut rows: Vec<StoredRow> = self
            .rows
            .iter()
            .filter(|row| text("nat_op").map_or(true, |p| like(&p, &row.nat_op)))
            .filter(|row| text("n_nf").map_or(true, |p| like(&p, &row.n_nf)))
            .filter(|row| text("tp_nf").map_or(true, |v| v == row.tp_nf))
            .filter(|row| text("dh_emi").map_or(true, |v| row.dh_emi.starts_with(&v)))
            .filter(|row| {
                text("search").map_or(true, |p| {
                    like(&p, &row.nat_op) || like(&p, &row.n_nf) || like(&p, &row.tp_nf)
                })
            })
            .cloned()
            .collect();
        rows.sort_by(|a, b| b.dh_emi.cmp(&a.dh_emi));
        rows
    }

    fn count(&mut self, query: &FilteredQuery) -> u64 {
        self.store_reads += 1;
        self.matching(&query.count_params).len() as u64
    }

    fn select(&mut self, query: &FilteredQuery) -> Vec<StoredRow> {
        self.store_reads += 1;
        let number = |name: &str| match bound(&query.select_params, name) {
            Some(SqlValue::Number(n)) => *n as usize,
            other => panic!("no number bound to {name}: {other:?}"),
        };
        let (offset, size) = (number("offset"), number("page_size"));
        self.matching(&query.select_params).into_iter().skip(offset).take(size).collect()
    }

    fn fetch_item(&self, key: &str) -> Result<Option<NFeIdentification>, CacheError> {
        CacheService::new().fetched(match self.cache.get(key) {
            None => Fetched::Absent,
            Some(Entry::Item(record)) => Fetched::Value(record.clone()),
            Some(Entry::Page(..)) => Fetched::Unreadable,
        })
    }

    fn fetch_page(&self, key: &str) -> Result<Option<(Vec<NFeIdentification>, u64)>, CacheError> {
        CacheService::new().fetched(match self.cache.get(key) {
            None => Fetched::Absent,
            Some(Entry::Page(records, total)) => Fetched::Value((records.clone(), *total)),
            Some(Entry::Item(_)) => Fetched::Unreadable,
        })
    }

    fn remove(&mut self, target: &str) {
        let cache = CacheService::new();
        let first = cache.delete(target);
        if first.name == "KEYS" {
            let prefix = &first.args[0][..first.args[0].len() - 1];
            let listed: Vec<String> =
                self.cache.keys().filter(|k| k.starts_with(prefix)).cloned().collect();
            if let Some(second) = cache.delete_listed(listed) {
                assert_eq!(second.name, "DEL");
                for key in second.args {
                    self.cache.remove(&key);
                }
            }
        } else {
            assert_eq!(first.name, "DEL");
            self.cache.remove(&first.args[0]);
        }
    }

    fn carry_out(&mut self, effects: Vec<CacheEffect>, entry: Option<Entry>) {
        for effect in effects {
            match effect {
                CacheEffect::Store { key, ttl_secs } => {
                    assert_eq!(ttl_secs, 300);
                    self.cache.insert(key, entry.clone().expect("something to store"));
                }
                CacheEffect::Delete { target } => self.remove(&target),
            }
        }
    }

    fn find_by_id(&mut self, id: &str) -> Result<Option<NFeIdentification>, RepositoryError> {
        let repository = NFeIdentificationRepository::new();
        let cache_key = repository.find_by_id(id)?;
        let cached = self.fetch_item(&cache_key);
        match repository.find_by_id_probed(id, cached) {
            FindStep::Done(result) => result,
            FindStep::Fetch { key, statement } => {
                let fetched = Ok(self.select_by_key(&statement));
                let done = repository.find_by_id_fetched(key, fetched);
                let entry = match &done.outcome {
                    Ok(Some(record)) => Some(Entry::Item(record.clone())),
                    _ => None,
                };
                self.carry_out(done.effects, entry);
                done.outcome
            }
        }
    }

    fn find_all(
        &mut self,
        page: u32,
        page_size: u32,
        n_nf: Option<&str>,
    ) -> Result<(Vec<NFeIdentification>, u64), RepositoryError> {
        self.find_all_by(page, page_size, None, n_nf)
    }

    fn find_all_by(
        &mut self,
        page: u32,
        page_size: u32,
        nat_op: Option<&str>,
        n_nf: Option<&str>,
    ) -> Result<(Vec<NFeIdentification>, u64), RepositoryError> {
        let repository = NFeIdentificationRepository::new();
        let plan = repository.find_all(
            page,
            page_size,
            nat_op.map(str::to_string),
            n_nf.map(str::to_string),
            None,
            None,
            None,
        );
        if let Some(hit) = nfe_repository::repository::cache_hit(self.fetch_page(&plan.cache_key)) {
            return Ok(hit);
        }
        let total = repository.find_all_counted(Ok(Some(self.count(&plan.query))))?;
        let selected = Ok(self.select(&plan.query));
        let done = repository.find_all_selected(plan.cache_key, total, selected);
        let entry = match &done.outcome {
            Ok((records, total)) => Some(Entry::Page(records.clone(), *total)),
            Err(_) => None,
        };
        self.carry_out(done.effects, entry);
        done.outcome
    }

    fn create(
        &mut self,
        input: &CreateNFeIdentification,
    ) -> Result<NFeIdentification, RepositoryError> {
        let repository = NFeIdentificationRepository::new();
        let plan = repository.create(input)?;
        let inserted = Ok(self.store_insert(&plan.insert));
        repository.create_inserted(inserted)?;
        let fetched = Ok(self.select_by_key(&plan.reread));
        let done = repository.create_reread(fetched);
        self.carry_out(done.effects, None);
        done.outcome
    }

    fn update(
        &mut self,
        id: &str,
        changes: &UpdateNFeIdentification,
    ) -> Result<NFeIdentification, RepositoryError> {
        let repository = NFeIdentificationRepository::new();
        let plan = repository.update(id, changes)?;
        let executed = Ok(self.store_update(&plan.update));
        repository.update_executed(executed)?;
        let fetched = Ok(self.select_by_key(&plan.reread));
        let done = repository.update_reread(plan.key, fetched);
        self.carry_out(done.effects, None);
        done.outcome
    }

    fn delete(&mut self, id: &str) -> Result<(), RepositoryError> {
        let repository = NFeIdentificationRepository::new();
        let plan = repository.delete(id)?;
        let executed = Ok(self.store_delete(&plan.statement));
        let done = repository.delete_executed(plan.key, executed);
        self.carry_out(done.effects, None);
        done.outcome
    }
}

fn entry_key(id: &str) -> String {
    item_cache_key(InternalKey::parse(id).expect("an identifier"))
}

fn instant(rfc3339: &str) -> Timestamp {
    let parsed = chrono::DateTime::parse_from_rfc3339(rfc3339).expect("a timestamp");
    Timestamp::from_millis(parsed.timestamp_millis()).expect("in range")
}

fn input(c_uf: &str, n_nf: &str, dh_emi: &str) -> CreateNFeIdentification {
    CreateNFeIdentification {
        c_uf: c_uf.to_string(),
        c_nf: "12345678".to_string(),
        nat_op: "VENDA DE MERCADORIA".to_string(),
        mod_: "55".to_string(),
        serie: "1".to_string(),
        n_nf: n_nf.to_string(),
        dh_emi: instant(dh_emi),
        dh_sai_ent: None,
        dh_cont: None,
        tp_nf: "1".to_string(),
        id_dest: "1".to_string(),
        c_mun_fg: "3550308".to_string(),
        tp_imp: "1".to_string(),
        tp_emis: "1".to_string(),
        c_dv: "0".to_string(),
        tp_amb: "2".to_string(),
        fin_nfe: "1".to_string(),
        ind_final: "0".to_string(),
        ind_pres: "1".to_string(),
        proc_emi: "0".to_string(),
        ver_proc: "1.0".to_string(),
    }
}

fn no_changes() -> UpdateNFeIdentification {
    UpdateNFeIdentification {
        c_uf: None,
        c_nf: None,
        nat_op: None,
        mod_: None,
        serie: None,
        n_nf: None,
        dh_emi: None,
        dh_sai_ent: None,
        dh_cont: None,
        tp_nf: None,
        id_dest: None,
        c_mun_fg: None,
        tp_imp: None,
        tp_emis: None,
        c_dv: None,
        tp_amb: None,
        fin_nfe: None,
        ind_final: None,
        ind_pres: None,
        proc_emi: None,
        ver_proc: None,
    }
}

#[test]
fn a_record_lives_through_create_list_update_and_delete() {
    let mut world = World::new();
    let emitted = "2024-01-01T10:00:00.000-03:00";

    let created = world.create(&input("35", "123", emitted)).unwrap();
    let id = created.internal_key.clone();
    assert_eq!(InternalKey::parse(&id).map(|key| key.canonical()), Some(id.clone()));

    let found = world.find_by_id(&id).unwrap().expect("the record");
    assert_eq!(found.c_uf, "35");
    assert_eq!(found.n_nf, "123");
    assert_eq!(found.dh_emi, instant(emitted));
    assert_eq!(found.dh_emi.millis(), 1_704_114_000_000);
    assert_eq!(found, created);

    let (page, total) = world.find_all(1, 10, Some("123")).unwrap();
    assert_eq!(total, 1);
    assert_eq!(page, vec![created.clone()]);

    let to_rio = UpdateNFeIdentification { c_uf: Some("33".to_string()), ..no_changes() };
    let updated = world.update(&id, &to_rio).unwrap();
    assert_eq!(updated.c_uf, "33");
    let found = world.find_by_id(&id).unwrap().expect("the record");
    assert_eq!(found.c_uf, "33");
    assert_eq!(found.n_nf, "123");
    assert_eq!(found, updated);

    assert_eq!(world.delete(&id), Ok(()));
    assert_eq!(world.find_by_id(&id), Ok(None));
    assert_eq!(world.delete(&id), Err(RepositoryError::NotFound));
}

#[test]
fn what_is_created_is_found_with_every_column_as_supplied() {
    let mut world = World::new();
    let mut supplied = input("35", "123", "2024-01-01T10:00:00.000-03:00");
    supplied.dh_sai_ent = Some(instant("2024-01-02T08:30:00.250Z"));
    supplied.dh_cont = Some(instant("2023-12-31T23:59:59.999Z"));
    let written_at = world.clock;
    let created = world.create(&supplied).unwrap();
    let found = world.find_by_id(&created.internal_key).unwrap().unwrap();
    assert_eq!(found, created);
    assert_eq!(found.c_uf, supplied.c_uf);
    assert_eq!(found.c_nf, supplied.c_nf);
    assert_eq!(found.nat_op, supplied.nat_op);
    assert_eq!(found.mod_, supplied.mod_);
    assert_eq!(found.serie, supplied.serie);
    assert_eq!(found.n_nf, supplied.n_nf);
    assert_eq!(found.dh_emi, supplied.dh_emi);
    assert_eq!(found.dh_sai_ent, supplied.dh_sai_ent);
    assert_eq!(found.dh_cont, supplied.dh_cont);
    assert_eq!(found.tp_nf, supplied.tp_nf);
    assert_eq!(found.id_dest, supplied.id_dest);
    assert_eq!(found.c_mun_fg, supplied.c_mun_fg);
    assert_eq!(found.tp_imp, supplied.tp_imp);
    assert_eq!(found.tp_emis, supplied.tp_emis);
    assert_eq!(found.c_dv, supplied.c_dv);
    assert_eq!(found.tp_amb, supplied.tp_amb);
    assert_eq!(found.fin_nfe, supplied.fin_nfe);
    assert_eq!(found.ind_final, supplied.ind_final);
    assert_eq!(found.ind_pres, supplied.ind_pres);
    assert_eq!(found.proc_emi, supplied.proc_emi);
    assert_eq!(found.ver_proc, supplied.ver_proc);
    assert_eq!(found.x_justificativa, None);
    assert!(found.created_at.millis() >= written_at);
    assert_eq!(found.updated_at, found.created_at);
}

#[test]
fn an_update_of_one_column_leaves_the_others() {
    let mut world = World::new();
    let before = world.create(&input("35", "123", "2024-01-01T10:00:00.000-03:00")).unwrap();
    let changes =
        UpdateNFeIdentification { nat_op: Some("DEVOLUCAO".to_string()), ..no_changes() };
    let after = world.update(&before.internal_key, &changes).unwrap();
    assert_eq!(after.nat_op, "DEVOLUCAO");
    assert!(after.updated_at.millis() > before.updated_at.millis());
    assert_eq!(
        after,
        NFeIdentification {
            nat_op: "DEVOLUCAO".to_string(),
            updated_at: after.updated_at,
            ..before.clone()
        }
    );
    assert_eq!(after.created_at, before.created_at);
}

#[test]
fn a_read_after_a_write_never_shows_what_was_there_before() {
    let mut world = World::new();
    let created = world.create(&input("35", "123", "2024-01-01T10:00:00.000-03:00")).unwrap();
    let id = created.internal_key.clone();
    assert_eq!(world.find_by_id(&id).unwrap(), Some(created.clone()));
    assert!(world.cache.contains_key(&entry_key(&id)));

    let reads = world.store_reads;
    assert_eq!(world.find_by_id(&id).unwrap(), Some(created.clone()));
    assert_eq!(world.store_reads, reads, "the second read comes from the cache");

    let changes = UpdateNFeIdentification { serie: Some("2".to_string()), ..no_changes() };
    let updated = world.update(&id, &changes).unwrap();
    assert!(!world.cache.contains_key(&entry_key(&id)));
    let found = world.find_by_id(&id).unwrap().unwrap();
    assert_eq!(found.serie, "2");
    assert_eq!(found, updated);

    assert_eq!(world.find_by_id(&id).unwrap().unwrap().serie, "2");
    assert_eq!(world.delete(&id), Ok(()));
    assert_eq!(world.find_by_id(&id), Ok(None));
}

#[test]
fn a_write_drops_every_cached_listing() {
    let mut world = World::new();
    world.create(&input("35", "1", "2024-01-01T10:00:00.000-03:00")).unwrap();
    assert_eq!(world.find_all(1, 10, None).unwrap().1, 1);
    assert_eq!(world.find_all(1, 10, Some("1")).unwrap().1, 1);
    assert_eq!(world.cache.len(), 2);

    let second = world.create(&input("35", "2", "2024-01-02T10:00:00.000-03:00")).unwrap();
    assert_eq!(world.cache.len(), 0);
    let (page, total) = world.find_all(1, 10, None).unwrap();
    assert_eq!(total, 2);
    assert_eq!(page[0], second, "newest emission first");

    let changes = UpdateNFeIdentification { n_nf: Some("20".to_string()), ..no_changes() };
    world.update(&second.internal_key, &changes).unwrap();
    assert_eq!(world.find_all(1, 10, Some("20")).unwrap().1, 1);
    world.delete(&second.internal_key).unwrap();
    assert_eq!(world.find_all(1, 10, Some("20")).unwrap(), (vec![], 0));
    assert_eq!(world.find_all(1, 10, None).unwrap().1, 1);
}

#[test]
fn deleting_one_record_spares_the_entry_of_another() {
    let mut world = World::new();
    let x = world.create(&input("35", "1", "2024-01-01T10:00:00.000-03:00")).unwrap();
    let y = world.create(&input("33", "2", "2024-01-02T10:00:00.000-03:00")).unwrap();
    world.find_by_id(&x.internal_key).unwrap();
    world.find_by_id(&y.internal_key).unwrap();
    world.find_all(1, 10, None).unwrap();
    assert_eq!(world.cache.len(), 3);

    world.delete(&x.internal_key).unwrap();
    assert_eq!(world.cache.len(), 1);
    assert_eq!(world.cache.get(&entry_key(&y.internal_key)), Some(&Entry::Item(y.clone())));
    let reads = world.store_reads;
    assert_eq!(world.find_by_id(&y.internal_key).unwrap(), Some(y));
    assert_eq!(world.store_reads, reads);
}

#[test]
fn deleting_what_is_not_there_is_not_found() {
    let mut world = World::new();
    assert_eq!(
        world.delete("67e55044-10b1-426f-9247-bb680e5fe0c8"),
        Err(RepositoryError::NotFound)
    );
    let created = world.create(&input("35", "1", "2024-01-01T10:00:00.000-03:00")).unwrap();
    assert_eq!(world.delete(&created.internal_key), Ok(()));
    assert_eq!(world.delete(&created.internal_key), Err(RepositoryError::NotFound));
    assert_eq!(world.delete(&created.internal_key), Err(RepositoryError::NotFound));
}

#[test]
fn the_pages_of_a_listing_hold_every_row_once() {
    let mut world = World::new();
    for n in 0..101 {
        let day = 1 + n % 28;
        let hour = n / 28;
        let emitted = format!("2024-01-{day:02}T{hour:02}:00:00.000Z");
        world.create(&input("35", &format!("{n}"), &emitted)).unwrap();
    }
    let mut seen = Vec::new();
    let mut rows = 0;
    for page in 1..=3 {
        let (records, total) = world.find_all(page, 50, None).unwrap();
        assert_eq!(total, 101);
        assert_eq!(records.len(), if page < 3 { 50 } else { 1 });
        rows += records.len() as u64;
        seen.extend(records.into_iter().map(|r| r.internal_key));
    }
    assert_eq!(rows, 101);
    assert_eq!(nfe_repository::handlers::total_pages(101, 50), 3);
    assert_eq!(world.find_all(4, 50, None).unwrap(), (vec![], 101));
    seen.sort();
    seen.dedup();
    assert_eq!(seen.len(), 101);
}

#[test]
fn an_update_of_what_is_not_there_fails_as_an_update() {
    let mut world = World::new();
    let changes = UpdateNFeIdentification { c_uf: Some("33".to_string()), ..no_changes() };
    assert_eq!(
        world.update("67e55044-10b1-426f-9247-bb680e5fe0c8", &changes),
        Err(RepositoryError::UpdateFailed)
    );
}

#[test]
fn malformed_identifiers_are_refused_before_the_store_is_asked() {
    let mut world = World::new();
    let refused = |text: &str| RepositoryError::InvalidIdentifier(text.to_string());
    assert_eq!(world.find_by_id("abc"), Err(refused("abc")));
    assert_eq!(world.update("abc", &no_changes()), Err(refused("abc")));
    assert_eq!(world.delete("nfe:list:*"), Err(refused("nfe:list:*")));
    assert_eq!(world.find_by_id("list:1:10:::::"), Err(refused("list:1:10:::::")));
    assert_eq!(world.store_reads, 0);
}

#[test]
fn a_text_that_spells_the_key_of_a_listing_is_no_identifier() {
    let mut world = World::new();
    world.find_all(1, 10, None).unwrap();
    assert!(world.cache.contains_key("nfe:list:1:10:-----"));
    assert_eq!(
        world.find_by_id("list:1:10:-----"),
        Err(RepositoryError::InvalidIdentifier("list:1:10:-----".to_string()))
    );
    let repository = NFeIdentificationRepository::new();
    match repository.find_by_id_probed("list:1:10:-----", Ok(None)) {
        FindStep::Done(result) => assert_eq!(
            result,
            Err(RepositoryError::InvalidIdentifier("list:1:10:-----".to_string()))
        ),
        FindStep::Fetch { .. } => panic!("the store was asked"),
    }
}

#[test]
fn a_write_through_one_spelling_reaches_a_read_through_another() {
    let mut world = World::new();
    let created = world.create(&input("35", "123", "2024-01-01T10:00:00.000-03:00")).unwrap();
    let canonical = created.internal_key.clone();
    let spellings = [
        canonical.to_uppercase(),
        canonical.replace('-', ""),
        format!("{{{canonical}}}"),
        format!("urn:uuid:{canonical}"),
        format!("URN:UUID:{}", canonical.to_uppercase()),
    ];
    for (n, spelling) in spellings.iter().enumerate() {
        assert_eq!(world.find_by_id(&canonical).unwrap().unwrap().internal_key, canonical);
        assert!(world.cache.contains_key(&format!("nfe:{canonical}")));
        let serie = format!("{}", n + 2);
        let changes = UpdateNFeIdentification { serie: Some(serie.clone()), ..no_changes() };
        let updated = world.update(spelling, &changes).unwrap();
        assert_eq!(updated.serie, serie);
        assert!(!world.cache.contains_key(&format!("nfe:{canonical}")));
        assert_eq!(world.find_by_id(&canonical).unwrap(), Some(updated.clone()));
        let reads = world.store_reads;
        assert_eq!(world.find_by_id(spelling).unwrap(), Some(updated));
        assert_eq!(world.store_reads, reads, "every spelling reads the same entry");
    }
    assert_eq!(world.cache.len(), 1);
    assert_eq!(world.delete(&spellings[2]), Ok(()));
    assert_eq!(world.find_by_id(&canonical), Ok(None));
    assert_eq!(world.delete(&canonical), Err(RepositoryError::NotFound));
}

#[test]
fn listings_with_filters_that_hold_colons_do_not_share_a_page() {
    let mut world = World::new();
    let mut first = input("35", "c", "2024-01-01T10:00:00.000-03:00");
    first.nat_op = "a:b".to_string();
    let mut second = input("35", "b:c", "2024-01-02T10:00:00.000-03:00");
    second.nat_op = "a".to_string();
    let first = world.create(&first).unwrap();
    let second = world.create(&second).unwrap();

    let (page, total) = world.find_all_by(1, 10, Some("a:b"), Some("c")).unwrap();
    assert_eq!((page, total), (vec![first], 1));
    let (page, total) = world.find_all_by(1, 10, Some("a"), Some("b:c")).unwrap();
    assert_eq!((page, total), (vec![second.clone()], 1));
    assert_eq!(world.cache.len(), 2);

    let (page, total) = world.find_all_by(1, 10, None, None).unwrap();
    assert_eq!(total, 2);
    assert_eq!(page[0], second);
    let (page, total) = world.find_all_by(1, 10, Some(""), None).unwrap();
    assert_eq!((page.len(), total), (2, 2));
    assert_eq!(world.cache.len(), 4);
    let none = ListFilters { nat_op: None, n_nf: None, tp_nf: None, dh_emi: None, search: None };
    let empty = ListFilters { nat_op: Some(String::new()), ..none.clone() };
    assert_ne!(list_cache_key(1, 10, &none), list_cache_key(1, 10, &empty));
}

#[test]
fn a_record_without_a_federative_unit_is_not_created() {
    let mut world = World::new();
    assert_eq!(
        world.create(&input("", "1", "2024-01-01T10:00:00.000-03:00")),
        Err(RepositoryError::CreationFailed)
    );
    assert!(world.rows.is_empty());
}

#[test]
fn failures_of_the_store_are_handed_on() {
    let repository = NFeIdentificationRepository::new();
    let failure = StoreFailure { code: 3113, message: "end-of-file on channel".to_string() };
    let handed_on = RepositoryError::BackingStoreError(failure.clone());
    assert_eq!(repository.find_all_counted(Err(failure.clone())), Err(handed_on.clone()));
    assert_eq!(repository.create_inserted(Err(failure.clone())), Err(handed_on.clone()));
    assert_eq!(repository.update_executed(Err(failure.clone())), Err(handed_on.clone()));
    let done = repository.find_all_selected("k".to_string(), 3, Err(failure.clone()));
    assert_eq!((done.outcome, done.effects), (Err(handed_on.clone()), vec![]));
    let key = InternalKey { value: 7 };
    let done = repository.find_by_id_fetched(key, Err(failure.clone()));
    assert_eq!((done.outcome, done.effects), (Err(handed_on.clone()), vec![]));
    let done = repository.create_reread(Err(failure.clone()));
    assert_eq!((done.outcome, done.effects), (Err(handed_on.clone()), vec![]));
    let done = repository.update_reread(key, Err(failure.clone()));
    assert_eq!((done.outcome, done.effects), (Err(handed_on.clone()), vec![]));
    let done = repository.delete_executed(key, Err(failure));
    assert_eq!((done.outcome, done.effects), (Err(handed_on), vec![]));
}

#[test]
fn failures_of_the_cache_count_as_misses() {
    let repository = NFeIdentificationRepository::new();
    let id = "67e55044-10b1-426f-9247-bb680e5fe0c8";
    for failure in [
        CacheError::Unavailable("connection refused".to_string()),
        CacheError::Deserialize,
    ] {
        match repository.find_by_id_probed(id, Err(failure.clone())) {
            FindStep::Fetch { key, statement } => {
                assert_eq!(key, InternalKey { value: 0x67e5504410b1426f9247bb680e5fe0c8 });
                assert_eq!(
                    statement.params,
                    vec![SqlValue::Text("67e5504410b1426f9247bb680e5fe0c8".to_string())]
                );
            }
            FindStep::Done(result) => panic!("answered without the store: {result:?}"),
        }
        assert_eq!(
            nfe_repository::repository::cache_hit::<(Vec<NFeIdentification>, u64)>(Err(failure)),
            None
        );
    }
    assert_eq!(nfe_repository::repository::cache_hit::<u8>(Ok(None)), None);
    assert_eq!(nfe_repository::repository::cache_hit(Ok(Some(3u8))), Some(3));
}

#[test]
fn a_row_that_vanished_after_the_write_fails_the_write() {
    let repository = NFeIdentificationRepository::new();
    let done = repository.create_reread(Ok(None));
    assert_eq!((done.outcome, done.effects), (Err(RepositoryError::CreationFailed), vec![]));
    let done = repository.update_reread(InternalKey { value: 7 }, Ok(None));
    assert_eq!((done.outcome, done.effects), (Err(RepositoryError::UpdateFailed), vec![]));
    assert_eq!(repository.update_executed(Ok(0)), Err(RepositoryError::UpdateFailed));
    assert_eq!(repository.update_executed(Ok(1)), Ok(()));
    assert_eq!(repository.find_all_counted(Ok(None)), Ok(0));
    assert_eq!(repository.find_all_counted(Ok(Some(7))), Ok(7));
}

#[test]
fn the_effects_of_a_write_name_the_entry_and_the_listings() {
    let repository = NFeIdentificationRepository::new();
    let id = "67e55044-10b1-426f-9247-bb680e5fe0c8";
    let both = vec![
        CacheEffect::Delete { target: format!("nfe:{id}") },
        CacheEffect::Delete { target: "nfe:list:*".to_string() },
    ];
    let plan = repository.delete(&format!("{{{}}}", id.to_uppercase())).unwrap();
    assert_eq!(plan.key, InternalKey { value: 0x67e5504410b1426f9247bb680e5fe0c8 });
    let done = repository.delete_executed(plan.key, Ok(1));
    assert_eq!((done.outcome, done.effects), (Ok(()), both.clone()));
    let done = repository.delete_executed(plan.key, Ok(0));
    assert_eq!((done.outcome, done.effects), (Err(RepositoryError::NotFound), both));
}

#[test]
fn a_creation_under_a_given_key_binds_that_key() {
    let repository = NFeIdentificationRepository::new();
    let key = InternalKey { value: 0xab };
    let plan = repository
        .create_with_key(key, &input("35", "1", "2024-01-01T10:00:00.000-03:00"))
        .unwrap();
    assert_eq!(plan.key, key);
    assert_eq!(plan.insert.params[0], SqlValue::Text("000000000000000000000000000000ab".to_string()));
    assert_eq!(plan.insert.params[1], SqlValue::Text("35".to_string()));
    assert_eq!(plan.insert.params[7], SqlValue::Text("2024-01-01 13:00:00.000".to_string()));
    assert_eq!(
        plan.reread.params,
        vec![SqlValue::Text("000000000000000000000000000000ab".to_string())]
    );
    let minted = repository.create(&input("35", "1", "2024-01-01T10:00:00.000-03:00")).unwrap();
    assert_eq!(minted.insert.params[0], SqlValue::Text(minted.key.storage_form()));
    assert_eq!((minted.key.value >> 76) & 0xf, 4);
}
