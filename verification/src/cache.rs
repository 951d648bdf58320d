//! The cache in front of the backing store: its keys, the commands sent to
//! the key-value store that holds it, and what those commands mean.
//!
//! The key of a record is made of the key that its identifier denotes, so
//! that every spelling of an identifier leads to one entry. The key of a
//! listing fixes the page, the page size and every filter: each part of it
//! tells where it ends, whatever a filter holds.
//!
//! Values are stored as serialized text with an expiry. A key handed to
//! `delete` that ends in a star is a pattern: it stands for every key that
//! begins with what precedes the star. Removing by pattern takes two steps,
//! listing and deleting, and a key written between the two survives until
//! its expiry.

use vstd::prelude::*;
use vstd::string::*;

use crate::identifier::{canonical_form, InternalKey};
use crate::models::NFeIdentificationView;
use crate::query::{ListFilters, ListFiltersView};
use crate::text::{
    decimal, decimal_digits, ends_with_char, is_decimal_digit, lemma_decimal_digits_are_digits,
    lemma_decimal_digits_are_injective, views,
};
use crate::timestamp::optional_text_view;

verus! {

/// What every key of a single record begins with.
pub const ITEM_PREFIX: &'static str = "nfe:";

/// What every key of a listing begins with.
pub const LIST_PREFIX: &'static str = "nfe:list:";

/// The pattern that stands for the keys of all listings.
pub const LIST_PATTERN: &'static str = "nfe:list:*";

/// How long an entry lives, in seconds.
pub const CACHE_TTL_SECS: u64 = 300;

/// The key under which the record with a given key is cached: the prefix
/// and the canonical form of the key, whatever spelling a caller used.
pub open spec fn item_key(key: u128) -> Seq<char> {
    ITEM_PREFIX@ + canonical_form(key)
}

/// A number as part of a key: its decimal digits and a colon.
pub open spec fn number_part(n: nat) -> Seq<char> {
    decimal_digits(n).push(':')
}

/// A filter as part of a key: a minus sign where the filter is absent; a
/// plus sign, the length of the value, a colon and the value where it is
/// present. The length tells where the value ends, whatever it holds.
pub open spec fn filter_part(filter: Option<Seq<char>>) -> Seq<char> {
    match filter {
        None => seq!['-'],
        Some(text) => seq!['+'] + (number_part(text.len()) + text),
    }
}

/// The key under which one page of one listing is cached: the prefix, the
/// page, the page size and every filter, each part ending where the next
/// begins.
pub open spec fn list_key(page: u32, page_size: u32, filters: ListFiltersView) -> Seq<char> {
    LIST_PREFIX@ + (number_part(page as nat) + (number_part(page_size as nat) + (filter_part(
        filters.nat_op,
    ) + (filter_part(filters.n_nf) + (filter_part(filters.tp_nf) + (filter_part(filters.dh_emi)
        + filter_part(filters.search)))))))
}

/// Whether a key handed to `delete` is a pattern.
pub open spec fn is_pattern(target: Seq<char>) -> bool {
    target.len() > 0 && target.last() == '*'
}

/// Whether `key` is among the keys that `pattern` stands for.
pub open spec fn matches_pattern(key: Seq<char>, pattern: Seq<char>) -> bool {
    let prefix = pattern.drop_last();
    key.len() >= prefix.len() && key.subrange(0, prefix.len() as int) == prefix
}

/// Whether deleting `target` removes the entry under `key`.
pub open spec fn removes(target: Seq<char>, key: Seq<char>) -> bool {
    if is_pattern(target) {
        matches_pattern(key, target)
    } else {
        key == target
    }
}

/// What an entry of the cache holds: one record, or one page of a listing
/// together with the number of all rows that matched.
pub enum Cached {
    Item(NFeIdentificationView),
    Page(Seq<NFeIdentificationView>, u64),
}

/// The cache after `value` was stored under `key`.
pub open spec fn cache_after_set(cache: Map<Seq<char>, Cached>, key: Seq<char>, value: Cached)
    -> Map<Seq<char>, Cached> {
    cache.insert(key, value)
}

/// The cache after `target`, a key or a pattern, was deleted.
pub open spec fn cache_after_delete(cache: Map<Seq<char>, Cached>, target: Seq<char>) -> Map<
    Seq<char>,
    Cached,
> {
    Map::new(|key: Seq<char>| cache.contains_key(key) && !removes(target, key), |key: Seq<char>|
        cache[key])
}

/// What follows a number in a key tells which number it was.
pub proof fn lemma_number_part_ends(a: nat, after_a: Seq<char>, b: nat, after_b: Seq<char>)
    requires
        number_part(a) + after_a == number_part(b) + after_b,
    ensures
        a == b,
        after_a == after_b,
{
    lemma_decimal_digits_are_digits(a);
    lemma_decimal_digits_are_digits(b);
    let digits_a = decimal_digits(a);
    let digits_b = decimal_digits(b);
    let left = number_part(a) + after_a;
    let right = number_part(b) + after_b;
    if digits_a.len() < digits_b.len() {
        assert(left[digits_a.len() as int] == ':');
        assert(right[digits_a.len() as int] == digits_b[digits_a.len() as int]);
        assert(is_decimal_digit(digits_b[digits_a.len() as int]));
    } else if digits_b.len() < digits_a.len() {
        assert(right[digits_b.len() as int] == ':');
        assert(left[digits_b.len() as int] == digits_a[digits_b.len() as int]);
        assert(is_decimal_digit(digits_a[digits_b.len() as int]));
    } else {
        let n = digits_a.len() as int;
        assert(digits_a =~= left.subrange(0, n));
        assert(digits_b =~= right.subrange(0, n));
        lemma_decimal_digits_are_injective(a, b);
        assert(after_a =~= left.subrange(n + 1, left.len() as int));
        assert(after_b =~= right.subrange(n + 1, right.len() as int));
    }
}

/// What follows a filter in a key tells which filter it was.
pub proof fn lemma_filter_part_ends(
    a: Option<Seq<char>>,
    after_a: Seq<char>,
    b: Option<Seq<char>>,
    after_b: Seq<char>,
)
    requires
        filter_part(a) + after_a == filter_part(b) + after_b,
    ensures
        a == b,
        after_a == after_b,
{
    let left = filter_part(a) + after_a;
    let right = filter_part(b) + after_b;
    assert(left[0] == filter_part(a)[0]);
    assert(right[0] == filter_part(b)[0]);
    match (a, b) {
        (None, None) => {
            assert(after_a =~= left.subrange(1, left.len() as int));
            assert(after_b =~= right.subrange(1, right.len() as int));
        },
        (Some(text_a), Some(text_b)) => {
            let rest_a = text_a + after_a;
            let rest_b = text_b + after_b;
            assert(number_part(text_a.len()) + rest_a =~= left.subrange(1, left.len() as int));
            assert(number_part(text_b.len()) + rest_b =~= right.subrange(1, right.len() as int));
            lemma_number_part_ends(text_a.len(), rest_a, text_b.len(), rest_b);
            let n = text_a.len() as int;
            assert(text_a =~= rest_a.subrange(0, n));
            assert(text_b =~= rest_b.subrange(0, n));
            assert(after_a =~= rest_a.subrange(n, rest_a.len() as int));
            assert(after_b =~= rest_b.subrange(n, rest_b.len() as int));
        },
        _ => {},
    }
}

/// The key of a listing fixes the page, the page size and every filter:
/// two listings that share a key are the same listing.
pub proof fn lemma_list_key_is_injective(
    page_a: u32,
    size_a: u32,
    filters_a: ListFiltersView,
    page_b: u32,
    size_b: u32,
    filters_b: ListFiltersView,
)
    requires
        list_key(page_a, size_a, filters_a) == list_key(page_b, size_b, filters_b),
    ensures
        page_a == page_b,
        size_a == size_b,
        filters_a == filters_b,
{
    let search_a = filter_part(filters_a.search);
    let search_b = filter_part(filters_b.search);
    let emi_a = filter_part(filters_a.dh_emi) + search_a;
    let emi_b = filter_part(filters_b.dh_emi) + search_b;
    let tp_a = filter_part(filters_a.tp_nf) + emi_a;
    let tp_b = filter_part(filters_b.tp_nf) + emi_b;
    let n_a = filter_part(filters_a.n_nf) + tp_a;
    let n_b = filter_part(filters_b.n_nf) + tp_b;
    let nat_a = filter_part(filters_a.nat_op) + n_a;
    let nat_b = filter_part(filters_b.nat_op) + n_b;
    let sized_a = number_part(size_a as nat) + nat_a;
    let sized_b = number_part(size_b as nat) + nat_b;
    let paged_a = number_part(page_a as nat) + sized_a;
    let paged_b = number_part(page_b as nat) + sized_b;
    let key_a = list_key(page_a, size_a, filters_a);
    let key_b = list_key(page_b, size_b, filters_b);
    let prefix = LIST_PREFIX@.len() as int;
    assert(paged_a =~= key_a.subrange(prefix, key_a.len() as int));
    assert(paged_b =~= key_b.subrange(prefix, key_b.len() as int));
    lemma_number_part_ends(page_a as nat, sized_a, page_b as nat, sized_b);
    lemma_number_part_ends(size_a as nat, nat_a, size_b as nat, nat_b);
    lemma_filter_part_ends(filters_a.nat_op, n_a, filters_b.nat_op, n_b);
    lemma_filter_part_ends(filters_a.n_nf, tp_a, filters_b.n_nf, tp_b);
    lemma_filter_part_ends(filters_a.tp_nf, emi_a, filters_b.tp_nf, emi_b);
    lemma_filter_part_ends(filters_a.dh_emi, search_a, filters_b.dh_emi, search_b);
    assert(search_a + Seq::<char>::empty() =~= search_a);
    assert(search_b + Seq::<char>::empty() =~= search_b);
    lemma_filter_part_ends(
        filters_a.search,
        Seq::<char>::empty(),
        filters_b.search,
        Seq::<char>::empty(),
    );
}

/// The key of a record.
pub fn item_cache_key(key: InternalKey) -> (r: String)
    ensures
        r@ == item_key(key.value),
{
    String::from_str(ITEM_PREFIX).concat(key.canonical().as_str())
}

fn number_text(n: u64) -> (r: String)
    ensures
        r@ == number_part(n as nat),
{
    proof {
        reveal_strlit(":");
    }
    let text = decimal(n).concat(":");
    assert(text@ =~= number_part(n as nat));
    text
}

fn filter_text(filter: &Option<String>) -> (r: String)
    ensures
        r@ == filter_part(optional_text_view(*filter)),
{
    proof {
        reveal_strlit("-");
        reveal_strlit("+");
    }
    match filter {
        None => {
            let text = String::from_str("-");
            assert(text@ =~= seq!['-']);
            text
        },
        Some(value) => {
            let length = value.as_str().unicode_len();
            let sized = number_text(length as u64).concat(value.as_str());
            let text = String::from_str("+").concat(sized.as_str());
            assert(text@ =~= seq!['+'] + (number_part(value@.len()) + value@));
            text
        },
    }
}

/// The key of one page of one listing.
pub fn list_cache_key(page: u32, page_size: u32, filters: &ListFilters) -> (r: String)
    ensures
        r@ == list_key(page, page_size, filters@),
{
    let search = filter_text(&filters.search);
    let dh_emi = filter_text(&filters.dh_emi).concat(search.as_str());
    let tp_nf = filter_text(&filters.tp_nf).concat(dh_emi.as_str());
    let n_nf = filter_text(&filters.n_nf).concat(tp_nf.as_str());
    let nat_op = filter_text(&filters.nat_op).concat(n_nf.as_str());
    let sized = number_text(page_size as u64).concat(nat_op.as_str());
    let paged = number_text(page as u64).concat(sized.as_str());
    String::from_str(LIST_PREFIX).concat(paged.as_str())
}

/// Why a call on the cache failed.
#[derive(Clone, Debug, PartialEq, Eq)]
pub enum CacheError {
    /// The key-value store could not be reached or refused the command.
    Unavailable(String),
    /// A value could not be serialized.
    Serialize,
    /// A stored text could not be read as the value that was asked for.
    Deserialize,
    /// A key could not be deleted.
    Delete,
}

pub enum CacheErrorView {
    Unavailable(Seq<char>),
    Serialize,
    Deserialize,
    Delete,
}

impl View for CacheError {
    type V = CacheErrorView;

    open spec fn view(&self) -> CacheErrorView {
        match self {
            CacheError::Unavailable(message) => CacheErrorView::Unavailable(message@),
            CacheError::Serialize => CacheErrorView::Serialize,
            CacheError::Deserialize => CacheErrorView::Deserialize,
            CacheError::Delete => CacheErrorView::Delete,
        }
    }
}

/// The message that describes a failure of the cache.
pub open spec fn cache_error_text(error: CacheErrorView) -> Seq<char> {
    match error {
        CacheErrorView::Unavailable(message) => message,
        CacheErrorView::Serialize => "Failed to serialize value"@,
        CacheErrorView::Deserialize => "Failed to deserialize value"@,
        CacheErrorView::Delete => "Failed to delete key"@,
    }
}

impl CacheError {
    /// The message that describes the failure to a reader.
    pub fn message(&self) -> (r: String)
        ensures
            r@ == cache_error_text(self@),
    {
        match self {
            CacheError::Unavailable(message) => message.clone(),
            CacheError::Serialize => String::from_str("Failed to serialize value"),
            CacheError::Deserialize => String::from_str("Failed to deserialize value"),
            CacheError::Delete => String::from_str("Failed to delete key"),
        }
    }
}

/// What the key-value store returned for a key, after the caller tried to
/// read the stored text as the value it expects.
#[derive(Clone, Debug, PartialEq, Eq)]
pub enum Fetched<T> {
    /// Nothing is stored under the key.
    Absent,
    /// The stored text reads as a value.
    Value(T),
    /// A text is stored, but it does not read as a value.
    Unreadable,
}

/// A command for the key-value store: its name and its arguments in order.
#[derive(Clone, Debug, PartialEq, Eq)]
pub struct CacheCommand {
    pub name: String,
    pub args: Vec<String>,
}

pub struct CacheCommandView {
    pub name: Seq<char>,
    pub args: Seq<Seq<char>>,
}

impl View for CacheCommand {
    type V = CacheCommandView;

    open spec fn view(&self) -> CacheCommandView {
        CacheCommandView { name: self.name@, args: views(self.args@) }
    }
}

/// The arguments of the command that stores `payload` under `key`.
pub open spec fn set_arguments(key: Seq<char>, payload: Seq<char>, ttl_secs: Option<u64>) -> Seq<
    Seq<char>,
> {
    match ttl_secs {
        Some(secs) => seq![key, payload, "EX"@, decimal_digits(secs as nat)],
        None => seq![key, payload],
    }
}

/// The first command of a delete: list the keys of a pattern, or delete a
/// single key.
pub open spec fn delete_command(target: Seq<char>) -> CacheCommandView {
    if is_pattern(target) {
        CacheCommandView { name: "KEYS"@, args: seq![target] }
    } else {
        CacheCommandView { name: "DEL"@, args: seq![target] }
    }
}

fn command(name: &str, args: Vec<String>) -> (r: CacheCommand)
    ensures
        r@.name == name@,
        r@.args == views(args@),
{
    CacheCommand { name: String::from_str(name), args }
}

fn one_argument(key: &str) -> (r: Vec<String>)
    ensures
        views(r@) == seq![key@],
{
    let mut args: Vec<String> = Vec::new();
    args.push(String::from_str(key));
    proof {
        assert(views(args@) =~= seq![key@]);
    }
    args
}

/// The cache in front of the backing store, as the commands it sends and
/// the sense it makes of the answers.
#[derive(Clone, Copy, Debug, PartialEq, Eq)]
pub struct CacheService {}

impl CacheService {
    pub fn new() -> (r: CacheService) {
        CacheService {  }
    }

    /// The command that fetches the text stored under `key`.
    pub fn get(&self, key: &str) -> (r: CacheCommand)
        ensures
            r@.name == "GET"@,
            r@.args == seq![key@],
    {
        command("GET", one_argument(key))
    }

    /// What a `get` amounts to, given what the store returned: a miss is a
    /// success without a value; a stored text that cannot be read is an
    /// error of its own.
    pub fn fetched<T>(&self, fetched: Fetched<T>) -> (r: Result<Option<T>, CacheError>)
        ensures
            match fetched {
                Fetched::Absent => r == Ok::<Option<T>, CacheError>(None),
                Fetched::Value(value) => r == Ok::<Option<T>, CacheError>(Some(value)),
                Fetched::Unreadable => r == Err::<Option<T>, CacheError>(CacheError::Deserialize),
            },
    {
        match fetched {
            Fetched::Absent => Ok(None),
            Fetched::Value(value) => Ok(Some(value)),
            Fetched::Unreadable => Err(CacheError::Deserialize),
        }
    }

    /// The command that stores `payload` under `key`; with a time to live
    /// the entry expires after that many seconds, without one it stays.
    pub fn set(&self, key: &str, payload: &str, ttl_secs: Option<u64>) -> (r: CacheCommand)
        ensures
            r@.name == "SET"@,
            r@.args == set_arguments(key@, payload@, ttl_secs),
    {
        let mut args: Vec<String> = Vec::new();
        args.push(String::from_str(key));
        args.push(String::from_str(payload));
        match ttl_secs {
            Some(secs) => {
                args.push(String::from_str("EX"));
                let rendered = decimal(secs);
                args.push(rendered);
                proof {
                    assert(views(args@) =~= set_arguments(key@, payload@, ttl_secs));
                }
            },
            None => {
                proof {
                    assert(views(args@) =~= set_arguments(key@, payload@, ttl_secs));
                }
            },
        }
        command("SET", args)
    }

    /// The first command of a delete. A target that ends in a star is a
    /// pattern, and its keys are listed first; any other target is deleted
    /// at once.
    pub fn delete(&self, target: &str) -> (r: CacheCommand)
        ensures
            r@ == delete_command(target@),
    {
        if ends_with_char(target, '*') {
            command("KEYS", one_argument(target))
        } else {
            command("DEL", one_argument(target))
        }
    }

    /// The second command of a delete by pattern, given the keys that the
    /// first one listed: delete them all, or send nothing where none matched.
    pub fn delete_listed(&self, keys: Vec<String>) -> (r: Option<CacheCommand>)
        ensures
            keys@.len() == 0 ==> r is None,
            keys@.len() > 0 ==> r is Some && r->0@.name == "DEL"@ && r->0@.args == views(keys@),
    {
        if keys.len() == 0 {
            None
        } else {
            Some(command("DEL", keys))
        }
    }

    /// The command that asks whether anything is stored under `key`.
    pub fn key_exists(&self, key: &str) -> (r: CacheCommand)
        ensures
            r@.name == "EXISTS"@,
            r@.args == seq![key@],
    {
        command("EXISTS", one_argument(key))
    }
}

} // verus!
