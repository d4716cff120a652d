//! A safety layer over a handle-based, transactional packet-filtering
//! subsystem: typed builders for filters, sublayers and match conditions, a
//! transaction state machine with rollback, owned byte buffers with a
//! provenance tag, and a batched, resumable filter enumerator.
//!
//! Native calls (opening a session handle, submitting structures to the
//! kernel) are the caller's concern; this library verifies the construction,
//! validation and lifetime rules that must hold before any such call is made.

mod action;
mod blob;
mod condition;
mod engine;
mod enumerate;
mod error;
mod filter;
mod guid;
mod layer;
mod sublayer;
mod transaction;
mod util;

pub use action::ActionType;
pub use blob::{BlobOrigin, BlobV, OwnedByteBlob};
pub use condition::{
    AppIdConditionBuilder, AppIdConditionBuilderHasValue, AppIdConditionBuilderMissingValue,
    Condition, ConditionBuilder, ConditionField, ConditionV, ConditionValue, MatchType,
    PortConditionBuilder, PortConditionBuilderHasValue, PortConditionBuilderMissingValue,
    ProtocolConditionBuilder, ValueV,
};
pub use engine::{
    conditions_view, filters_view, sublayers_view, EngineV, FilterEngine, FilterEngineBuilder,
    FilterRecord, FilterRecordV, SubLayerRecord, SubLayerRecordV,
};
pub use enumerate::{
    initial_enumerator, lemma_fetch_count_vs_ceiling, spec_count_fetch, spec_fetch,
    spec_fetch_end, spec_item_of, FilterEnumItem, FilterEnumItemV, FilterEnumerator,
    FilterEnumeratorV, PAGE_SIZE,
};
pub use error::{
    MissingField, WfpError, STATUS_FILTER_NOT_FOUND, STATUS_NO_TXN_IN_PROGRESS,
    STATUS_TXN_IN_PROGRESS,
};
pub use filter::{
    delete_filter, delete_filter_by_guid, filter_add_post, FilterBuilder, FilterBuilderHasAction,
    FilterBuilderHasName, FilterBuilderMissingAction, FilterBuilderMissingName,
};
pub use guid::Guid;
pub use layer::Layer;
pub use sublayer::{
    default_sublayer_guid, spec_default_sublayer_guid, sublayer_add_post, SubLayerBuilder,
    SubLayerBuilderHasName, SubLayerBuilderMissingName,
};
pub use transaction::{
    abort_post, begin_post, commit_post, lemma_abandoned_matches_abort,
    lemma_transaction_atomicity, Transaction, TransactionV,
};
pub use util::{
    lemma_zterm_prefix_len, string_to_null_terminated_utf16, utf16_decoded, utf16_of, wcslen,
    wide_to_string, zterm_prefix, zterm_prefix_len,
};
