//! Sublayer creation and management.
//!
//! Sublayers organize and prioritize filters within one layer. The builder
//! tracks at the type level that a name has been set, and checks at
//! finalization that a description was too: an incomplete sublayer is never
//! submitted.

use vstd::prelude::*;

use crate::engine::{SubLayerRecordV, sublayers_view};
use crate::error::{MissingField, WfpError};
use crate::guid::Guid;
use crate::transaction::{Transaction, TransactionV};
use crate::util::{clone_units, string_to_null_terminated_utf16, utf16_of};

verus! {

/// The identifier of the platform's universal sublayer: where a filter
/// lands when it names no sublayer of its own.
pub open spec fn spec_default_sublayer_guid() -> Guid {
    (Guid { data1: 0xeebecc03, data2: 0xced4, data3: 0x4380, data4: 0x819a2734397b2b74 })
}

/// Returns the identifier of the platform's universal sublayer.
pub fn default_sublayer_guid() -> (g: Guid)
    ensures
        g == spec_default_sublayer_guid(),
{
    (Guid { data1: 0xeebecc03, data2: 0xced4, data3: 0x4380, data4: 0x819a2734397b2b74 })
}

/// Stage of a [`SubLayerBuilder`] before a name has been set.
pub struct SubLayerBuilderMissingName;

/// Stage of a [`SubLayerBuilder`] holding the display name.
pub struct SubLayerBuilderHasName {
    /// The name's null-terminated code units.
    pub units: Vec<u16>,
}

/// Builder for sublayers.
///
/// Name and description are mandatory: [`SubLayerBuilder::add`] exists only
/// once a name was set, and refuses a builder whose description was not.
/// Weight and key are optional; an unset weight is 0, the lowest priority,
/// and for an unset key the engine chooses one itself.
pub struct SubLayerBuilder<Name> {
    /// The staged name: nothing yet, or its code units.
    pub name: Name,
    /// The description's null-terminated code units, once set.
    pub description: Option<Vec<u16>>,
    /// The sublayer's weight: higher weights are evaluated first.
    pub weight: u16,
    /// The sublayer's key, once set.
    pub key: Option<Guid>,
}

impl Default for SubLayerBuilder<SubLayerBuilderMissingName> {
    /// A builder with no fields set.
    fn default() -> (r: Self)
        ensures
            r.description is None,
            r.weight == 0,
            r.key is None,
    {
        SubLayerBuilder {
            name: SubLayerBuilderMissingName,
            description: None,
            weight: 0,
            key: None,
        }
    }
}

impl<Name> SubLayerBuilder<Name> {
    /// Sets the display name, descriptive of the sublayer's purpose.
    pub fn name(self, name: &str) -> (r: SubLayerBuilder<SubLayerBuilderHasName>)
        ensures
            r.name.units@ == utf16_of(name@).push(0u16),
            r.description == self.description,
            r.weight == self.weight,
            r.key == self.key,
    {
        SubLayerBuilder {
            name: SubLayerBuilderHasName { units: string_to_null_terminated_utf16(name) },
            description: self.description,
            weight: self.weight,
            key: self.key,
        }
    }

    /// Sets the description, detailing the sublayer's purpose.
    pub fn description(self, desc: &str) -> (r: SubLayerBuilder<Name>)
        ensures
            r.name == self.name,
            r.description is Some,
            r.description.unwrap()@ == utf16_of(desc@).push(0u16),
            r.weight == self.weight,
            r.key == self.key,
    {
        SubLayerBuilder {
            name: self.name,
            description: Some(string_to_null_terminated_utf16(desc)),
            weight: self.weight,
            key: self.key,
        }
    }

    /// Sets the weight (priority) of the sublayer. Filters in
    /// higher-weight sublayers are evaluated before filters in
    /// lower-weight ones.
    pub fn weight(self, weight: u16) -> (r: SubLayerBuilder<Name>)
        ensures
            r.name == self.name,
            r.description == self.description,
            r.weight == weight,
            r.key == self.key,
    {
        SubLayerBuilder { weight, ..self }
    }

    /// Sets a custom key for the sublayer, so it can be referenced later;
    /// without one the engine generates a key itself.
    pub fn guid(self, guid: Guid) -> (r: SubLayerBuilder<Name>)
        ensures
            r.name == self.name,
            r.description == self.description,
            r.weight == self.weight,
            r.key == Some(guid),
    {
        SubLayerBuilder { key: Some(guid), ..self }
    }
}

/// How adding a sublayer relates the transaction's working view before
/// (`t0`) to after (`t1`): the record is appended, nothing else moves.
pub open spec fn sublayer_add_post(t0: TransactionV, t1: TransactionV, rec: SubLayerRecordV) -> bool {
    t1 == (TransactionV { sublayers: t0.sublayers.push(rec), ..t0 })
}

impl SubLayerBuilder<SubLayerBuilderHasName> {
    /// The record this builder submits.
    pub open spec fn spec_record(self) -> SubLayerRecordV {
        SubLayerRecordV {
            key: self.key,
            name: self.name.units@,
            description: (match self.description {
                Some(d) => d@,
                None => Seq::<u16>::empty(),
            }),
            weight: self.weight,
        }
    }

    /// Adds the configured sublayer through the transaction. Only the
    /// stage that holds a name has this method, and a builder whose
    /// description was never set is refused before anything is submitted.
    pub fn add(&self, transaction: &mut Transaction) -> (r: Result<(), WfpError>)
        ensures
            self.description is None ==> {
                &&& r is Err
                &&& r->Err_0 is Incomplete
                &&& r->Err_0->Incomplete_0@ == seq![MissingField::Description]
                &&& final(transaction)@ == old(transaction)@
            },
            self.description is Some ==> {
                &&& r is Ok
                &&& sublayer_add_post(old(transaction)@, final(transaction)@, self.spec_record())
            },
    {
        let description = match &self.description {
            Some(d) => clone_units(d),
            None => {
                let mut missing: Vec<MissingField> = Vec::new();
                missing.push(MissingField::Description);
                proof {
                    assert(missing@ =~= seq![MissingField::Description]);
                }
                return Err(WfpError::Incomplete(missing));
            },
        };
        let record = crate::engine::SubLayerRecord {
            key: self.key,
            name: clone_units(&self.name.units),
            description,
            weight: self.weight,
        };
        transaction.sublayers.push(record);
        proof {
            assert(sublayers_view(final(transaction).sublayers@) =~= old(
                transaction,
            )@.sublayers.push(self.spec_record()));
            assert(final(transaction)@ =~= (TransactionV {
                sublayers: old(transaction)@.sublayers.push(self.spec_record()),
                ..old(transaction)@
            }));
        }
        Ok(())
    }
}

} // verus!
