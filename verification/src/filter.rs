//! Filter creation, submission and deletion.
//!
//! The builder tracks at the type level that a name and an action have been
//! set — [`FilterBuilder::add`] exists only on the stage holding both — and
//! checks at finalization that a description was too. A finalized filter is
//! submitted through the active transaction and becomes durable only when
//! that transaction commits.

use vstd::prelude::*;

use crate::action::ActionType;
use crate::condition::Condition;
use crate::engine::{clone_conditions, conditions_view, filters_view, FilterRecord, FilterRecordV};
use crate::error::{MissingField, WfpError, STATUS_FILTER_NOT_FOUND};
use crate::guid::Guid;
use crate::layer::Layer;
use crate::sublayer::{default_sublayer_guid, spec_default_sublayer_guid};
use crate::transaction::{Transaction, TransactionV};
use crate::util::{clone_units, string_to_null_terminated_utf16, utf16_of};

verus! {

/// Stage of a [`FilterBuilder`] before a name has been set.
pub struct FilterBuilderMissingName;

/// Stage of a [`FilterBuilder`] holding the display name.
pub struct FilterBuilderHasName {
    /// The name's null-terminated code units.
    pub units: Vec<u16>,
}

/// Stage of a [`FilterBuilder`] before an action has been set.
pub struct FilterBuilderMissingAction;

/// Stage of a [`FilterBuilder`] holding the action.
pub struct FilterBuilderHasAction {
    /// The action taken when the filter matches.
    pub action: ActionType,
}

/// Builder for filters.
///
/// Name, description and action are mandatory: [`FilterBuilder::add`]
/// exists only once name and action were set, and refuses a builder whose
/// description was not. The layer defaults to [`Layer::ConnectV4`] when
/// unset; the sublayer defaults to the platform's universal sublayer; the
/// condition list may stay empty, which matches all traffic.
pub struct FilterBuilder<Name, Action> {
    /// The staged name: nothing yet, or its code units.
    pub name: Name,
    /// The staged action: nothing yet, or the action.
    pub action: Action,
    /// The description's null-terminated code units, once set.
    pub description: Option<Vec<u16>>,
    /// The layer the filter operates at, once set.
    pub layer: Option<Layer>,
    /// The sublayer the filter belongs to, once set.
    pub sublayer: Option<Guid>,
    /// The match clauses, combined with logical AND. Clauses on the same
    /// field are combined with logical OR by the engine itself; that is
    /// inherited native behavior, not reproduced here.
    pub conditions: Vec<Condition>,
}

impl Default for FilterBuilder<FilterBuilderMissingName, FilterBuilderMissingAction> {
    /// A builder with no fields set.
    fn default() -> (r: Self)
        ensures
            r.description is None,
            r.layer is None,
            r.sublayer is None,
            r.conditions@ == Seq::<Condition>::empty(),
    {
        FilterBuilder {
            name: FilterBuilderMissingName,
            action: FilterBuilderMissingAction,
            description: None,
            layer: None,
            sublayer: None,
            conditions: Vec::new(),
        }
    }
}

impl<Name, Action> FilterBuilder<Name, Action> {
    /// Sets the display name, which should explain the filter's purpose.
    pub fn name(self, name: &str) -> (r: FilterBuilder<FilterBuilderHasName, Action>)
        ensures
            r.name.units@ == utf16_of(name@).push(0u16),
            r.action == self.action,
            r.description == self.description,
            r.layer == self.layer,
            r.sublayer == self.sublayer,
            r.conditions == self.conditions,
    {
        FilterBuilder {
            name: FilterBuilderHasName { units: string_to_null_terminated_utf16(name) },
            action: self.action,
            description: self.description,
            layer: self.layer,
            sublayer: self.sublayer,
            conditions: self.conditions,
        }
    }

    /// Sets the description, which should explain the filter's purpose in
    /// more detail.
    pub fn description(self, desc: &str) -> (r: FilterBuilder<Name, Action>)
        ensures
            r.name == self.name,
            r.action == self.action,
            r.description is Some,
            r.description.unwrap()@ == utf16_of(desc@).push(0u16),
            r.layer == self.layer,
            r.sublayer == self.sublayer,
            r.conditions == self.conditions,
    {
        FilterBuilder {
            name: self.name,
            action: self.action,
            description: Some(string_to_null_terminated_utf16(desc)),
            layer: self.layer,
            sublayer: self.sublayer,
            conditions: self.conditions,
        }
    }

    /// Sets the action to take when the filter matches network traffic.
    pub fn action(self, action: ActionType) -> (r: FilterBuilder<Name, FilterBuilderHasAction>)
        ensures
            r.name == self.name,
            r.action.action == action,
            r.description == self.description,
            r.layer == self.layer,
            r.sublayer == self.sublayer,
            r.conditions == self.conditions,
    {
        FilterBuilder {
            name: self.name,
            action: FilterBuilderHasAction { action },
            description: self.description,
            layer: self.layer,
            sublayer: self.sublayer,
            conditions: self.conditions,
        }
    }

    /// Sets the network layer at which the filter operates.
    pub fn layer(self, layer: Layer) -> (r: FilterBuilder<Name, Action>)
        ensures
            r.name == self.name,
            r.action == self.action,
            r.description == self.description,
            r.layer == Some(layer),
            r.sublayer == self.sublayer,
            r.conditions == self.conditions,
    {
        FilterBuilder { layer: Some(layer), ..self }
    }

    /// Sets the sublayer at which the filter operates; unset, the
    /// platform's universal sublayer is used.
    pub fn sublayer(self, sublayer: Guid) -> (r: FilterBuilder<Name, Action>)
        ensures
            r.name == self.name,
            r.action == self.action,
            r.description == self.description,
            r.layer == self.layer,
            r.sublayer == Some(sublayer),
            r.conditions == self.conditions,
    {
        FilterBuilder { sublayer: Some(sublayer), ..self }
    }

    /// Adds a condition the traffic must match for the filter to apply.
    pub fn condition(self, condition: Condition) -> (r: FilterBuilder<Name, Action>)
        ensures
            r.name == self.name,
            r.action == self.action,
            r.description == self.description,
            r.layer == self.layer,
            r.sublayer == self.sublayer,
            r.conditions@ == self.conditions@.push(condition),
    {
        let mut conditions = self.conditions;
        conditions.push(condition);
        FilterBuilder {
            name: self.name,
            action: self.action,
            description: self.description,
            layer: self.layer,
            sublayer: self.sublayer,
            conditions,
        }
    }
}

/// How adding a filter relates the transaction's working view before
/// (`t0`) to after (`t1`): the record is appended bearing the next id, the
/// id counter moves on, nothing else moves.
pub open spec fn filter_add_post(t0: TransactionV, t1: TransactionV, rec: FilterRecordV) -> bool {
    &&& rec.id == t0.next_filter_id
    &&& t1 == (TransactionV {
        filters: t0.filters.push(rec),
        next_filter_id: (t0.next_filter_id + 1) as u64,
        ..t0
    })
}

impl FilterBuilder<FilterBuilderHasName, FilterBuilderHasAction> {
    /// The record this builder submits when the engine assigns it `id`.
    /// The engine derives the filter's key from that id when, as here, the
    /// caller supplied none.
    pub open spec fn spec_record(self, id: u64) -> FilterRecordV {
        FilterRecordV {
            id,
            key: Guid::spec_from_u128(id as u128),
            provider: None,
            name: self.name.units@,
            description: (match self.description {
                Some(d) => d@,
                None => Seq::<u16>::empty(),
            }),
            action: self.action.action,
            layer: (match self.layer {
                Some(l) => l.spec_guid(),
                None => Layer::ConnectV4.spec_guid(),
            }),
            sublayer: (match self.sublayer {
                Some(g) => g,
                None => spec_default_sublayer_guid(),
            }),
            conditions: conditions_view(self.conditions@),
        }
    }

    /// Adds the configured filter through the transaction. Only the stage
    /// that holds a name and an action has this method, and a builder
    /// whose description was never set is refused before anything is
    /// submitted.
    pub fn add(&self, transaction: &mut Transaction) -> (r: Result<(), WfpError>)
        requires
            old(transaction).next_filter_id < u64::MAX,
        ensures
            self.description is None ==> {
                &&& r is Err
                &&& r->Err_0 is Incomplete
                &&& r->Err_0->Incomplete_0@ == seq![MissingField::Description]
                &&& final(transaction)@ == old(transaction)@
            },
            self.description is Some ==> {
                &&& r is Ok
                &&& filter_add_post(
                    old(transaction)@,
                    final(transaction)@,
                    self.spec_record(old(transaction).next_filter_id),
                )
            },
    {
        let description = match &self.description {
            Some(d) => clone_units(d),
            None => {
                let mut missing: Vec<MissingField> = Vec::new();
                missing.push(MissingField::Description);
                proof {
                    assert(missing@ =~= seq![MissingField::Description]);
                }
                return Err(WfpError::Incomplete(missing));
            },
        };
        let id = transaction.next_filter_id;
        let record = FilterRecord {
            id,
            key: Guid::from_u128(id as u128),
            provider: None,
            name: clone_units(&self.name.units),
            description,
            action: self.action.action,
            layer: (match &self.layer {
                Some(l) => l.guid(),
                None => Layer::ConnectV4.guid(),
            }),
            sublayer: (match &self.sublayer {
                Some(g) => *g,
                None => default_sublayer_guid(),
            }),
            conditions: clone_conditions(&self.conditions),
        };
        proof {
            assert(record@ =~= self.spec_record(id));
        }
        transaction.filters.push(record);
        transaction.next_filter_id = id + 1;
        proof {
            assert(filters_view(final(transaction).filters@) =~= old(transaction)@.filters.push(
                self.spec_record(id),
            ));
            assert(final(transaction)@ =~= (TransactionV {
                filters: old(transaction)@.filters.push(self.spec_record(id)),
                next_filter_id: (id + 1) as u64,
                ..old(transaction)@
            }));
        }
        Ok(())
    }
}

/// Deletes the filter bearing the numeric id `id` from the transaction's
/// working view: the first record with that id is removed; when none
/// carries it, the native not-found status is surfaced and nothing moves.
pub fn delete_filter(transaction: &mut Transaction, id: u64) -> (r: Result<(), WfpError>)
    ensures
        (r is Ok) <==> (exists|i: int|
            0 <= i < old(transaction)@.filters.len() && old(transaction)@.filters[i].id == id),
        r is Err ==> {
            &&& r->Err_0 == WfpError::Os(STATUS_FILTER_NOT_FOUND)
            &&& final(transaction)@ == old(transaction)@
        },
        r is Ok ==> exists|i: int|
            {
                &&& 0 <= i < old(transaction)@.filters.len()
                &&& old(transaction)@.filters[i].id == id
                &&& forall|j: int| 0 <= j < i ==> old(transaction)@.filters[j].id != id
                &&& final(transaction)@ == (TransactionV {
                    filters: old(transaction)@.filters.remove(i),
                    ..old(transaction)@
                })
            },
{
    let len = transaction.filters.len();
    let mut i: usize = 0;
    while i < len
        invariant
            0 <= i <= len,
            len == transaction.filters@.len(),
            *transaction == *old(transaction),
            forall|j: int| 0 <= j < i ==> transaction@.filters[j].id != id,
        decreases len - i,
    {
        if transaction.filters[i].id == id {
            proof {
                assert(transaction@.filters[i as int] == transaction.filters@[i as int]@);
                assert(transaction@.filters[i as int].id == id);
            }
            transaction.filters.remove(i);
            proof {
                assert(filters_view(final(transaction).filters@) =~= old(
                    transaction,
                )@.filters.remove(i as int));
                assert(final(transaction)@ =~= (TransactionV {
                    filters: old(transaction)@.filters.remove(i as int),
                    ..old(transaction)@
                }));
            }
            return Ok(());
        }
        i = i + 1;
    }
    Err(WfpError::Os(STATUS_FILTER_NOT_FOUND))
}

/// Deletes the filter bearing the key `guid` from the transaction's
/// working view: the first record with that key is removed; when none
/// carries it, the native not-found status is surfaced and nothing moves.
pub fn delete_filter_by_guid(transaction: &mut Transaction, guid: &Guid) -> (r: Result<
    (),
    WfpError,
>)
    ensures
        (r is Ok) <==> (exists|i: int|
            0 <= i < old(transaction)@.filters.len() && old(transaction)@.filters[i].key == *guid),
        r is Err ==> {
            &&& r->Err_0 == WfpError::Os(STATUS_FILTER_NOT_FOUND)
            &&& final(transaction)@ == old(transaction)@
        },
        r is Ok ==> exists|i: int|
            {
                &&& 0 <= i < old(transaction)@.filters.len()
                &&& old(transaction)@.filters[i].key == *guid
                &&& forall|j: int| 0 <= j < i ==> old(transaction)@.filters[j].key != *guid
                &&& final(transaction)@ == (TransactionV {
                    filters: old(transaction)@.filters.remove(i),
                    ..old(transaction)@
                })
            },
{
    let len = transaction.filters.len();
    let mut i: usize = 0;
    while i < len
        invariant
            0 <= i <= len,
            len == transaction.filters@.len(),
            *transaction == *old(transaction),
            forall|j: int| 0 <= j < i ==> transaction@.filters[j].key != *guid,
        decreases len - i,
    {
        let matches_key = {
            let k = &transaction.filters[i].key;
            k.data1 == guid.data1 && k.data2 == guid.data2 && k.data3 == guid.data3 && k.data4
                == guid.data4
        };
        if matches_key {
            proof {
                assert(transaction@.filters[i as int].key == *guid);
            }
            transaction.filters.remove(i);
            proof {
                assert(filters_view(final(transaction).filters@) =~= old(
                    transaction,
                )@.filters.remove(i as int));
                assert(final(transaction)@ =~= (TransactionV {
                    filters: old(transaction)@.filters.remove(i as int),
                    ..old(transaction)@
                }));
            }
            return Ok(());
        }
        i = i + 1;
    }
    Err(WfpError::Os(STATUS_FILTER_NOT_FOUND))
}

} // verus!
