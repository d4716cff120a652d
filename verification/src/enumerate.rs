//! Batched, resumable enumeration of the committed filter set.
//!
//! The enumerator pulls pages of up to [`PAGE_SIZE`] filters from the
//! session's committed store and hands them out one at a time. A page
//! shorter than the page size, or an empty fetch, marks the cursor
//! permanently exhausted: every later pull returns no item without touching
//! the engine again. Each page is taken from the committed state as it
//! stands when that page is fetched; commits between two fetches may or may
//! not be observed, a race the caller must tolerate.

use vstd::prelude::*;
use vstd::slice::slice_subrange;

use crate::engine::{FilterEngine, FilterRecord, FilterRecordV};
use crate::error::WfpError;
use crate::guid::Guid;
use crate::transaction::Transaction;
use crate::util::{
    clone_units, lemma_zterm_prefix_len, utf16_decoded, wcslen, wide_to_string, zterm_prefix,
};

verus! {

/// How many filters one native batch-enumerate call requests.
pub const PAGE_SIZE: usize = 50;

/// One enumerated filter, an owned snapshot of the record's fields.
pub struct FilterEnumItem {
    /// The filter's numeric id.
    pub id: u64,
    /// The filter's key.
    pub key: Guid,
    /// The provider that installed the filter, if any.
    pub provider: Option<Guid>,
    /// The display name as the engine holds it: a length-implicit wide
    /// string, if one is set.
    pub name: Option<Vec<u16>>,
    /// The display description as the engine holds it, if one is set.
    pub description: Option<Vec<u16>>,
}

/// What a [`FilterEnumItem`] holds.
#[verifier::ext_equal]
pub ghost struct FilterEnumItemV {
    /// The filter's numeric id.
    pub id: u64,
    /// The filter's key.
    pub key: Guid,
    /// The provider that installed the filter, if any.
    pub provider: Option<Guid>,
    /// The display name's code units, if a name is set.
    pub name: Option<Seq<u16>>,
    /// The display description's code units, if one is set.
    pub description: Option<Seq<u16>>,
}

impl View for FilterEnumItem {
    type V = FilterEnumItemV;

    open spec fn view(&self) -> FilterEnumItemV {
        FilterEnumItemV {
            id: self.id,
            key: self.key,
            provider: self.provider,
            name: (match self.name {
                Some(units) => Some(units@),
                None => None,
            }),
            description: (match self.description {
                Some(units) => Some(units@),
                None => None,
            }),
        }
    }
}

/// The item that enumerating the filter record `r` yields.
pub open spec fn spec_item_of(r: FilterRecordV) -> FilterEnumItemV {
    FilterEnumItemV {
        id: r.id,
        key: r.key,
        provider: r.provider,
        name: Some(r.name),
        description: Some(r.description),
    }
}

impl FilterEnumItem {
    /// Assembles an item from its parts.
    pub fn new(
        id: u64,
        key: Guid,
        provider: Option<Guid>,
        name: Option<Vec<u16>>,
        description: Option<Vec<u16>>,
    ) -> (it: Self)
        ensures
            it.id == id,
            it.key == key,
            it.provider == provider,
            it.name == name,
            it.description == description,
    {
        FilterEnumItem { id, key, provider, name, description }
    }

    /// The filter's numeric id.
    pub fn id(&self) -> (r: u64)
        ensures
            r == self.id,
    {
        self.id
    }

    /// The filter's key.
    pub fn guid(&self) -> (r: Guid)
        ensures
            r == self.key,
    {
        self.key
    }

    /// The provider that installed the filter, if any.
    pub fn provider(&self) -> (r: Option<Guid>)
        ensures
            r == self.provider,
    {
        self.provider
    }

    /// The filter's name, if one is set, decoded from the wide string up
    /// to its terminator. Malformed text surfaces a decode error rather
    /// than being truncated silently.
    pub fn name(&self) -> (r: Result<Option<String>, WfpError>)
        ensures
            (match self@.name {
                None => r is Ok && r.unwrap() is None,
                Some(units) => (match utf16_decoded(zterm_prefix(units)) {
                    Some(chars) => r is Ok && r.unwrap() is Some && r.unwrap().unwrap()@ == chars,
                    None => r is Err && r->Err_0 is Decode,
                }),
            }),
    {
        match &self.name {
            None => Ok(None),
            Some(units) => {
                proof {
                    lemma_zterm_prefix_len(units@);
                }
                let n = wcslen(units.as_slice());
                let prefix = slice_subrange(units.as_slice(), 0, n);
                match wide_to_string(prefix) {
                    Ok(text) => Ok(Some(text)),
                    Err(e) => Err(e),
                }
            },
        }
    }

    /// The filter's description, if one is set, decoded like the name.
    pub fn description(&self) -> (r: Result<Option<String>, WfpError>)
        ensures
            (match self@.description {
                None => r is Ok && r.unwrap() is None,
                Some(units) => (match utf16_decoded(zterm_prefix(units)) {
                    Some(chars) => r is Ok && r.unwrap() is Some && r.unwrap().unwrap()@ == chars,
                    None => r is Err && r->Err_0 is Decode,
                }),
            }),
    {
        match &self.description {
            None => Ok(None),
            Some(units) => {
                proof {
                    lemma_zterm_prefix_len(units@);
                }
                let n = wcslen(units.as_slice());
                let prefix = slice_subrange(units.as_slice(), 0, n);
                match wide_to_string(prefix) {
                    Ok(text) => Ok(Some(text)),
                    Err(e) => Err(e),
                }
            },
        }
    }
}

/// Copies one stored record into the owned item enumeration yields.
fn item_of(r: &FilterRecord) -> (it: FilterEnumItem)
    ensures
        it@ == spec_item_of(r@),
{
    FilterEnumItem {
        id: r.id,
        key: r.key,
        provider: r.provider,
        name: Some(clone_units(&r.name)),
        description: Some(clone_units(&r.description)),
    }
}

/// A resumable cursor over the committed filter set.
pub struct FilterEnumerator {
    /// How many committed filters the fetches so far have covered.
    pub cursor: usize,
    /// The page fetched last, as far as it is not yet freed.
    pub page: Vec<FilterRecord>,
    /// How many entries of the current page were already handed out.
    pub page_index: usize,
    /// Whether the cursor is permanently done.
    pub exhausted: bool,
    /// How many batch fetches were issued.
    pub pages_fetched: u64,
}

/// What a [`FilterEnumerator`] holds.
#[verifier::ext_equal]
pub ghost struct FilterEnumeratorV {
    /// How many committed filters the fetches so far have covered.
    pub cursor: usize,
    /// The page fetched last.
    pub page: Seq<FilterRecordV>,
    /// How many entries of the current page were already handed out.
    pub page_index: usize,
    /// Whether the cursor is permanently done.
    pub exhausted: bool,
    /// How many batch fetches were issued.
    pub pages_fetched: u64,
}

impl View for FilterEnumerator {
    type V = FilterEnumeratorV;

    open spec fn view(&self) -> FilterEnumeratorV {
        FilterEnumeratorV {
            cursor: self.cursor,
            page: crate::engine::filters_view(self.page@),
            page_index: self.page_index,
            exhausted: self.exhausted,
            pages_fetched: self.pages_fetched,
        }
    }
}

/// The state a fresh enumerator starts in.
pub open spec fn initial_enumerator() -> FilterEnumeratorV {
    FilterEnumeratorV {
        cursor: 0,
        page: Seq::<FilterRecordV>::empty(),
        page_index: 0,
        exhausted: false,
        pages_fetched: 0,
    }
}

/// The slice of the committed store a fetch at `cursor` covers: up to
/// [`PAGE_SIZE`] records, clamped to the store.
pub open spec fn spec_fetch(filters: Seq<FilterRecordV>, cursor: usize) -> Seq<FilterRecordV> {
    let start = if cursor as int <= filters.len() {
        cursor as int
    } else {
        filters.len() as int
    };
    let end = if start + PAGE_SIZE <= filters.len() {
        start + PAGE_SIZE
    } else {
        filters.len() as int
    };
    filters.subrange(start, end)
}

/// Where the cursor stands after a fetch at `cursor`.
pub open spec fn spec_fetch_end(filters: Seq<FilterRecordV>, cursor: usize) -> int {
    let start = if cursor as int <= filters.len() {
        cursor as int
    } else {
        filters.len() as int
    };
    if start + PAGE_SIZE <= filters.len() {
        start + PAGE_SIZE
    } else {
        filters.len() as int
    }
}

/// One more fetch on the books, saturating rather than wrapping.
pub open spec fn spec_count_fetch(pages_fetched: u64) -> u64 {
    if pages_fetched < u64::MAX {
        (pages_fetched + 1) as u64
    } else {
        pages_fetched
    }
}

impl FilterEnumerator {
    /// Creates an enumerator over the committed filter set. The native
    /// protocol scopes the enumeration handle to the transaction's
    /// session; no filtering template is applied — this enumerates all
    /// filters.
    pub fn new(_transaction: &Transaction) -> (r: Result<FilterEnumerator, WfpError>)
        ensures
            r is Ok,
            r.unwrap()@ == initial_enumerator(),
    {
        let e = FilterEnumerator {
            cursor: 0,
            page: Vec::new(),
            page_index: 0,
            exhausted: false,
            pages_fetched: 0,
        };
        proof {
            assert(e@ =~= initial_enumerator());
        }
        Ok(e)
    }

    /// Pulls the next filter, or nothing when the enumeration is done.
    ///
    /// A page still holding unconsumed entries yields its next entry.
    /// Otherwise the page is freed; a short previous page means the set is
    /// exhausted without another native call, and otherwise a new page is
    /// fetched from the committed store as it stands now. An empty fetch
    /// exhausts the cursor permanently: from then on every call returns
    /// nothing and changes nothing.
    pub fn next(&mut self, engine: &FilterEngine) -> (r: Option<
        Result<FilterEnumItem, WfpError>,
    >)
        ensures
            old(self).exhausted ==> r is None && final(self)@ == old(self)@,
            (!old(self).exhausted && old(self)@.page_index < old(self)@.page.len()) ==> {
                &&& r is Some
                &&& r.unwrap() is Ok
                &&& r.unwrap().unwrap()@ == spec_item_of(
                    old(self)@.page[old(self)@.page_index as int],
                )
                &&& final(self)@ == (FilterEnumeratorV {
                    page_index: (old(self)@.page_index + 1) as usize,
                    ..old(self)@
                })
            },
            (!old(self).exhausted && old(self)@.page_index >= old(self)@.page.len() && 0 < old(
                self,
            )@.page.len() < PAGE_SIZE) ==> {
                &&& r is None
                &&& final(self)@ == (FilterEnumeratorV {
                    page: Seq::<FilterRecordV>::empty(),
                    page_index: 0,
                    exhausted: true,
                    ..old(self)@
                })
            },
            (!old(self).exhausted && old(self)@.page_index >= old(self)@.page.len() && (old(
                self,
            )@.page.len() == 0 || old(self)@.page.len() >= PAGE_SIZE)) ==> ({
                let fetched = spec_fetch(engine@.filters, old(self)@.cursor);
                let end = spec_fetch_end(engine@.filters, old(self)@.cursor);
                let counted = spec_count_fetch(old(self)@.pages_fetched);
                if fetched.len() == 0 {
                    &&& r is None
                    &&& final(self)@ == (FilterEnumeratorV {
                        cursor: end as usize,
                        page: Seq::<FilterRecordV>::empty(),
                        page_index: 0,
                        exhausted: true,
                        pages_fetched: counted,
                    })
                } else {
                    &&& r is Some
                    &&& r.unwrap() is Ok
                    &&& r.unwrap().unwrap()@ == spec_item_of(fetched[0])
                    &&& final(self)@ == (FilterEnumeratorV {
                        cursor: end as usize,
                        page: fetched,
                        page_index: 1,
                        exhausted: false,
                        pages_fetched: counted,
                    })
                }
            }),
    {
        if self.exhausted {
            return None;
        }
        if self.page_index < self.page.len() {
            let item = item_of(&self.page[self.page_index]);
            self.page_index = self.page_index + 1;
            proof {
                assert(final(self)@ =~= (FilterEnumeratorV {
                    page_index: (old(self)@.page_index + 1) as usize,
                    ..old(self)@
                }));
            }
            return Some(Ok(item));
        }
        let prev_len = self.page.len();
        self.page = Vec::new();
        self.page_index = 0;
        if prev_len != 0 && prev_len < PAGE_SIZE {
            self.exhausted = true;
            proof {
                assert(final(self)@ =~= (FilterEnumeratorV {
                    page: Seq::<FilterRecordV>::empty(),
                    page_index: 0,
                    exhausted: true,
                    ..old(self)@
                }));
            }
            return None;
        }
        // Fetch the next page from the committed store as it stands now.
        let total = engine.filters.len();
        let start: usize = if self.cursor > total {
            total
        } else {
            self.cursor
        };
        let remaining = total - start;
        let take: usize = if remaining < PAGE_SIZE {
            remaining
        } else {
            PAGE_SIZE
        };
        let mut page: Vec<FilterRecord> = Vec::new();
        let mut k: usize = 0;
        while k < take
            invariant
                0 <= k <= take,
                total == engine.filters@.len(),
                start + take <= total,
                page@.len() == k,
                forall|j: int| 0 <= j < k ==> page@[j]@ == engine.filters@[start + j]@,
            decreases take - k,
        {
            page.push(engine.filters[start + k].clone());
            k = k + 1;
        }
        proof {
            assert(crate::engine::filters_view(page@) =~= spec_fetch(
                engine@.filters,
                old(self)@.cursor,
            ));
        }
        self.page = page;
        self.cursor = start + take;
        if self.pages_fetched < u64::MAX {
            self.pages_fetched = self.pages_fetched + 1;
        }
        if self.page.len() == 0 {
            self.exhausted = true;
            proof {
                assert(final(self)@ =~= (FilterEnumeratorV {
                    cursor: spec_fetch_end(engine@.filters, old(self)@.cursor) as usize,
                    page: Seq::<FilterRecordV>::empty(),
                    page_index: 0,
                    exhausted: true,
                    pages_fetched: spec_count_fetch(old(self)@.pages_fetched),
                }));
            }
            return None;
        }
        let item = item_of(&self.page[0]);
        self.page_index = 1;
        proof {
            assert(final(self)@ =~= (FilterEnumeratorV {
                cursor: spec_fetch_end(engine@.filters, old(self)@.cursor) as usize,
                page: spec_fetch(engine@.filters, old(self)@.cursor),
                page_index: 1,
                exhausted: false,
                pages_fetched: spec_count_fetch(old(self)@.pages_fetched),
            }));
        }
        Some(Ok(item))
    }
}

/// The shape an enumerator has while it is not yet exhausted and `k` items
/// were handed out: its page is the stretch of the store its last fetch
/// covered, the cursor stands at the end of that stretch, and every full
/// page so far moved the cursor by the page size.
spec fn mid_state(s: FilterEnumeratorV, filters: Seq<FilterRecordV>, k: int) -> bool {
    let n = filters.len() as int;
    let pf = s.pages_fetched as int;
    &&& s.page_index <= s.page.len()
    &&& s.page.len() <= PAGE_SIZE
    &&& s.cursor as int == (if 50 * pf <= n {
        50 * pf
    } else {
        n
    })
    &&& 50 * pf <= n + 50
    &&& (pf == 0 ==> s.cursor == 0 && s.page.len() == 0 && s.page_index == 0)
    &&& (pf > 0 ==> s.page.len() > 0 && s.cursor as int - s.page.len() == 50 * (pf - 1))
    &&& s.page == filters.subrange(s.cursor - s.page.len(), s.cursor as int)
    &&& k == s.cursor as int - (s.page.len() - s.page_index)
}

impl FilterEnumerator {
    /// Drains a fresh enumerator: every committed filter is yielded exactly
    /// once, in store order. An empty store yields no items. With `n`
    /// filters the protocol issues `n / 50 + 1` batch fetches — one per
    /// full or partial page, plus one empty fetch when `n` is a multiple
    /// of the page size, the fetch by which the protocol learns it is done
    /// — and leaves the cursor permanently exhausted.
    pub fn collect_all(&mut self, engine: &FilterEngine) -> (items: Vec<FilterEnumItem>)
        requires
            old(self)@ == initial_enumerator(),
        ensures
            items@.len() == engine@.filters.len(),
            forall|i: int|
                0 <= i < items@.len() ==> items@[i]@ == spec_item_of(engine@.filters[i]),
            final(self).exhausted,
            final(self)@.pages_fetched as int == engine@.filters.len() as int / 50 + 1,
    {
        let total = engine.filters.len();
        proof {
            assert(engine@.filters.len() == total as int);
            assert(engine@.filters.len() <= usize::MAX);
            assert(engine@.filters.len() <= u64::MAX);
            assert(Seq::<FilterRecordV>::empty() =~= engine@.filters.subrange(0, 0));
            assert(mid_state(old(self)@, engine@.filters, 0));
        }
        let mut items: Vec<FilterEnumItem> = Vec::new();
        loop
            invariant_except_break
                !self.exhausted,
                mid_state(self@, engine@.filters, items@.len() as int),
            invariant
                engine@.filters.len() <= usize::MAX,
                engine@.filters.len() <= u64::MAX,
                items@.len() <= engine@.filters.len(),
                forall|i: int|
                    0 <= i < items@.len() ==> items@[i]@ == spec_item_of(engine@.filters[i]),
            ensures
                self.exhausted,
                items@.len() == engine@.filters.len(),
                self@.pages_fetched as int == engine@.filters.len() as int / 50 + 1,
            decreases engine@.filters.len() - items@.len(),
        {
            let ghost s0 = self@;
            let ghost k0 = items@.len() as int;
            let ghost n = engine@.filters.len() as int;
            let ghost pf0 = s0.pages_fetched as int;
            match self.next(engine) {
                None => {
                    proof {
                        if s0.page_index >= s0.page.len() && 0 < s0.page.len() < PAGE_SIZE {
                            // A short page was consumed whole: the cursor
                            // had reached the end of the store.
                            assert(50 * pf0 > n);
                            assert(s0.cursor as int == n);
                            assert(k0 == n);
                            assert(n == 50 * (pf0 - 1) + s0.page.len());
                            assert(n / 50 == pf0 - 1) by (nonlinear_arith)
                                requires
                                    n == 50 * (pf0 - 1) + s0.page.len(),
                                    0 < s0.page.len() < 50;
                        } else {
                            // The fetch came back empty: the cursor stood
                            // exactly at the end of the store.
                            let fetched = spec_fetch(engine@.filters, s0.cursor);
                            assert(fetched.len() == 0);
                            assert(s0.cursor as int == n);
                            assert(k0 == n);
                            assert(pf0 < u64::MAX) by (nonlinear_arith)
                                requires
                                    50 * pf0 <= n + 50,
                                    n <= u64::MAX,
                                    pf0 >= 0;
                            if pf0 > 0 {
                                assert(s0.page.len() == PAGE_SIZE);
                                assert(n == 50 * pf0);
                                assert(n / 50 == pf0) by (nonlinear_arith)
                                    requires
                                        n == 50 * pf0,
                                        n >= 0;
                            } else {
                                assert(n == 0);
                            }
                        }
                    }
                    break;
                },
                Some(result) => match result {
                    Ok(item) => {
                        items.push(item);
                        proof {
                            if s0.page_index < s0.page.len() {
                                // An entry of the current page was handed out.
                                assert(s0.page[s0.page_index as int] == engine@.filters[k0]);
                                assert(mid_state(self@, engine@.filters, k0 + 1));
                            } else {
                                // A new page was fetched and its first
                                // entry handed out.
                                let fetched = spec_fetch(engine@.filters, s0.cursor);
                                let end = spec_fetch_end(engine@.filters, s0.cursor);
                                assert(fetched.len() > 0);
                                assert(s0.page_index == s0.page.len());
                                assert(k0 == s0.cursor as int);
                                assert(s0.cursor as int <= n);
                                assert((s0.cursor as int) < n);
                                if pf0 > 0 {
                                    assert(s0.page.len() == PAGE_SIZE);
                                }
                                assert(s0.cursor as int == 50 * pf0);
                                assert(pf0 < u64::MAX) by (nonlinear_arith)
                                    requires
                                        50 * pf0 <= n + 50,
                                        n <= u64::MAX,
                                        pf0 >= 0;
                                assert(self@.pages_fetched as int == pf0 + 1);
                                assert(fetched == engine@.filters.subrange(s0.cursor as int, end));
                                assert(0 <= end <= usize::MAX);
                                assert(self@.cursor as int == end);
                                assert(self@.page == fetched);
                                assert(self@.page.len() == end - s0.cursor as int);
                                assert(fetched[0] == engine@.filters[k0]);
                                assert(items@[k0]@ == spec_item_of(engine@.filters[k0]));
                                assert(self@.page =~= engine@.filters.subrange(
                                    self@.cursor - self@.page.len(),
                                    self@.cursor as int,
                                ));
                                assert(mid_state(self@, engine@.filters, k0 + 1));
                            }
                        }
                    },
                    Err(_) => {
                        proof {
                            // The model's fetches cannot fail, so the
                            // enumerator never surfaces an error.
                            assert(false);
                        }
                    },
                },
            }
        }
        items
    }
}

/// With `n` filters and the fixed page size of 50, the `n / 50 + 1`
/// fetches the protocol issues are exactly the ceiling of `n / 50`
/// whenever `n` is not a multiple of the page size; at multiples, the
/// protocol spends one fetch more than the ceiling, the empty fetch by
/// which it learns the set is exhausted.
pub proof fn lemma_fetch_count_vs_ceiling(n: int)
    requires
        n >= 0,
        n % 50 != 0,
    ensures
        n / 50 + 1 == (n + 49) / 50,
{
    let q = n / 50;
    let r = n % 50;
    assert(n == 50 * q + r && 0 < r < 50) by (nonlinear_arith)
        requires
            n >= 0,
            n % 50 != 0,
            q == n / 50,
            r == n % 50;
    assert((n + 49) / 50 == q + 1) by (nonlinear_arith)
        requires
            n == 50 * q + r,
            0 < r < 50;
}

} // verus!
