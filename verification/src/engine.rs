//! The filter engine session and the objects it stores.
//!
//! A [`FilterEngine`] stands for one open session: the filters and
//! sublayers the engine holds, the id it will give the next filter, and
//! whether a transaction is in progress. Opening and closing the native
//! session handle is the caller's thin call-through; everything the library
//! decides about the session's state is here and verified.

use vstd::prelude::*;

use crate::action::ActionType;
use crate::condition::{Condition, ConditionV};
use crate::error::WfpError;
use crate::guid::Guid;
use crate::util::clone_units;

verus! {

/// One filter as the engine stores it.
pub struct FilterRecord {
    /// The numeric id the engine gave the filter.
    pub id: u64,
    /// The filter's key, derived from its id when none was supplied.
    pub key: Guid,
    /// The provider that installed the filter, if any.
    pub provider: Option<Guid>,
    /// The display name, a null-terminated wide string.
    pub name: Vec<u16>,
    /// The display description, a null-terminated wide string.
    pub description: Vec<u16>,
    /// The action taken when the filter matches.
    pub action: ActionType,
    /// The layer the filter operates at.
    pub layer: Guid,
    /// The sublayer the filter belongs to.
    pub sublayer: Guid,
    /// The match clauses, combined with logical AND. The engine itself
    /// combines clauses on the same field with logical OR; that is
    /// inherited native behavior, not reproduced here.
    pub conditions: Vec<Condition>,
}

/// What a [`FilterRecord`] holds.
#[verifier::ext_equal]
pub ghost struct FilterRecordV {
    /// The numeric id the engine gave the filter.
    pub id: u64,
    /// The filter's key.
    pub key: Guid,
    /// The provider that installed the filter, if any.
    pub provider: Option<Guid>,
    /// The display name's code units.
    pub name: Seq<u16>,
    /// The display description's code units.
    pub description: Seq<u16>,
    /// The action taken when the filter matches.
    pub action: ActionType,
    /// The layer the filter operates at.
    pub layer: Guid,
    /// The sublayer the filter belongs to.
    pub sublayer: Guid,
    /// The match clauses.
    pub conditions: Seq<ConditionV>,
}

/// The views of a sequence of conditions.
pub open spec fn conditions_view(s: Seq<Condition>) -> Seq<ConditionV> {
    s.map_values(|c: Condition| c@)
}

impl View for FilterRecord {
    type V = FilterRecordV;

    open spec fn view(&self) -> FilterRecordV {
        FilterRecordV {
            id: self.id,
            key: self.key,
            provider: self.provider,
            name: self.name@,
            description: self.description@,
            action: self.action,
            layer: self.layer,
            sublayer: self.sublayer,
            conditions: conditions_view(self.conditions@),
        }
    }
}

/// Duplicates a vector of conditions.
pub(crate) fn clone_conditions(v: &Vec<Condition>) -> (r: Vec<Condition>)
    ensures
        conditions_view(r@) == conditions_view(v@),
{
    let mut r: Vec<Condition> = Vec::new();
    let len = v.len();
    let mut i: usize = 0;
    while i < len
        invariant
            0 <= i <= len,
            len == v@.len(),
            r@.len() == i,
            forall|j: int| 0 <= j < i ==> r@[j]@ == v@[j]@,
        decreases len - i,
    {
        r.push(v[i].clone());
        i = i + 1;
    }
    proof {
        assert(conditions_view(r@) =~= conditions_view(v@));
    }
    r
}

impl Clone for FilterRecord {
    /// A record with the same view.
    fn clone(&self) -> (r: Self)
        ensures
            r@ == self@,
    {
        FilterRecord {
            id: self.id,
            key: self.key,
            provider: self.provider,
            name: clone_units(&self.name),
            description: clone_units(&self.description),
            action: self.action,
            layer: self.layer,
            sublayer: self.sublayer,
            conditions: clone_conditions(&self.conditions),
        }
    }
}

/// One sublayer as the engine stores it.
pub struct SubLayerRecord {
    /// The sublayer's key, or nothing when the engine chose one itself.
    pub key: Option<Guid>,
    /// The display name, a null-terminated wide string.
    pub name: Vec<u16>,
    /// The display description, a null-terminated wide string.
    pub description: Vec<u16>,
    /// The sublayer's weight: higher weights are evaluated first.
    pub weight: u16,
}

/// What a [`SubLayerRecord`] holds.
#[verifier::ext_equal]
pub ghost struct SubLayerRecordV {
    /// The sublayer's key, if one was supplied.
    pub key: Option<Guid>,
    /// The display name's code units.
    pub name: Seq<u16>,
    /// The display description's code units.
    pub description: Seq<u16>,
    /// The sublayer's weight.
    pub weight: u16,
}

impl View for SubLayerRecord {
    type V = SubLayerRecordV;

    open spec fn view(&self) -> SubLayerRecordV {
        SubLayerRecordV {
            key: self.key,
            name: self.name@,
            description: self.description@,
            weight: self.weight,
        }
    }
}

impl Clone for SubLayerRecord {
    /// A record with the same view.
    fn clone(&self) -> (r: Self)
        ensures
            r@ == self@,
    {
        SubLayerRecord {
            key: self.key,
            name: clone_units(&self.name),
            description: clone_units(&self.description),
            weight: self.weight,
        }
    }
}

/// The views of a sequence of filter records.
pub open spec fn filters_view(s: Seq<FilterRecord>) -> Seq<FilterRecordV> {
    s.map_values(|r: FilterRecord| r@)
}

/// The views of a sequence of sublayer records.
pub open spec fn sublayers_view(s: Seq<SubLayerRecord>) -> Seq<SubLayerRecordV> {
    s.map_values(|r: SubLayerRecord| r@)
}

/// Duplicates a vector of filter records.
pub(crate) fn clone_filters(v: &Vec<FilterRecord>) -> (r: Vec<FilterRecord>)
    ensures
        filters_view(r@) == filters_view(v@),
{
    let mut r: Vec<FilterRecord> = Vec::new();
    let len = v.len();
    let mut i: usize = 0;
    while i < len
        invariant
            0 <= i <= len,
            len == v@.len(),
            r@.len() == i,
            forall|j: int| 0 <= j < i ==> r@[j]@ == v@[j]@,
        decreases len - i,
    {
        r.push(v[i].clone());
        i = i + 1;
    }
    proof {
        assert(filters_view(r@) =~= filters_view(v@));
    }
    r
}

/// Duplicates a vector of sublayer records.
pub(crate) fn clone_sublayers(v: &Vec<SubLayerRecord>) -> (r: Vec<SubLayerRecord>)
    ensures
        sublayers_view(r@) == sublayers_view(v@),
{
    let mut r: Vec<SubLayerRecord> = Vec::new();
    let len = v.len();
    let mut i: usize = 0;
    while i < len
        invariant
            0 <= i <= len,
            len == v@.len(),
            r@.len() == i,
            forall|j: int| 0 <= j < i ==> r@[j]@ == v@[j]@,
        decreases len - i,
    {
        r.push(v[i].clone());
        i = i + 1;
    }
    proof {
        assert(sublayers_view(r@) =~= sublayers_view(v@));
    }
    r
}

/// An open session with the filtering engine.
///
/// The committed filter and sublayer stores live here. While a transaction
/// is in progress the session works on that transaction's view; what is
/// stored here stays the committed state, which enumeration observes.
pub struct FilterEngine {
    /// The committed filters, in the order they were added.
    pub filters: Vec<FilterRecord>,
    /// The committed sublayers, in the order they were added.
    pub sublayers: Vec<SubLayerRecord>,
    /// The id the engine will give the next filter.
    pub next_filter_id: u64,
    /// Whether a transaction is in progress on this session.
    pub txn_active: bool,
    /// Whether the session is dynamic: its objects are removed when the
    /// session closes.
    pub dynamic: bool,
}

/// What a [`FilterEngine`] holds.
#[verifier::ext_equal]
pub ghost struct EngineV {
    /// The committed filters, in order.
    pub filters: Seq<FilterRecordV>,
    /// The committed sublayers, in order.
    pub sublayers: Seq<SubLayerRecordV>,
    /// The id the engine will give the next filter.
    pub next_filter_id: u64,
    /// Whether a transaction is in progress.
    pub txn_active: bool,
    /// Whether the session is dynamic.
    pub dynamic: bool,
}

impl View for FilterEngine {
    type V = EngineV;

    open spec fn view(&self) -> EngineV {
        EngineV {
            filters: filters_view(self.filters@),
            sublayers: sublayers_view(self.sublayers@),
            next_filter_id: self.next_filter_id,
            txn_active: self.txn_active,
            dynamic: self.dynamic,
        }
    }
}

impl FilterEngine {
    /// Whether this session is dynamic.
    pub fn is_dynamic(&self) -> (r: bool)
        ensures
            r == self@.dynamic,
    {
        self.dynamic
    }
}

/// Builder for a filter engine session.
pub struct FilterEngineBuilder {
    /// Whether the session to open will be dynamic.
    pub dynamic: bool,
}

impl Default for FilterEngineBuilder {
    /// A builder for a persistent (non-dynamic) session.
    fn default() -> (r: Self)
        ensures
            !r.dynamic,
    {
        FilterEngineBuilder { dynamic: false }
    }
}

impl FilterEngineBuilder {
    /// Configures the session to use dynamic filters, which are removed
    /// when the session is closed.
    pub fn dynamic(self) -> (r: Self)
        ensures
            r.dynamic,
    {
        FilterEngineBuilder { dynamic: true }
    }

    /// Opens a session with the filtering engine: empty stores, no
    /// transaction in progress, filter ids starting at 1.
    pub fn open(self) -> (r: Result<FilterEngine, WfpError>)
        ensures
            r is Ok,
            r.unwrap()@ == (EngineV {
                filters: Seq::<FilterRecordV>::empty(),
                sublayers: Seq::<SubLayerRecordV>::empty(),
                next_filter_id: 1,
                txn_active: false,
                dynamic: self.dynamic,
            }),
    {
        let engine = FilterEngine {
            filters: Vec::new(),
            sublayers: Vec::new(),
            next_filter_id: 1,
            txn_active: false,
            dynamic: self.dynamic,
        };
        proof {
            assert(engine@ =~= (EngineV {
                filters: Seq::<FilterRecordV>::empty(),
                sublayers: Seq::<SubLayerRecordV>::empty(),
                next_filter_id: 1,
                txn_active: false,
                dynamic: self.dynamic,
            }));
        }
        Ok(engine)
    }
}

} // verus!
