//! Queries over engine records. Each term's parameter path is handed to the
//! engine as a list that the query then owns: the path is moved into the call
//! and never kept, so it cannot be handed over twice.
use vstd::prelude::*;

use crate::engine::{encodable, is_encodable, EngineCall, QofQueryOp, RecordKind, Target};
use crate::error::Error;
use crate::numeric::Guid;

verus! {

/// A query record, by address. Releasing it destroys it.
#[derive(Debug)]
pub struct Query {
    ptr: u64,
}

impl View for Query {
    type V = u64;

    closed spec fn view(&self) -> u64 {
        self.ptr
    }
}

/// Every name of a parameter path is encodable.
pub open spec fn path_ok(names: Seq<&str>) -> bool {
    forall|i: int| 0 <= i < names.len() ==> encodable(#[trigger] names[i]@)
}

/// The path as owned text, name by name.
pub open spec fn path_text(names: Seq<&str>, path: Seq<String>) -> bool {
    &&& path.len() == names.len()
    &&& forall|i: int| 0 <= i < names.len() ==> (#[trigger] path[i])@ == names[i]@
}

/// Copies a parameter path into owned text, or fails on a name with a NUL.
fn owned_path(param_list: &[&str]) -> (r: Result<Vec<String>, Error>)
    ensures
        path_ok(param_list@) ==> (r matches Ok(p) && path_text(param_list@, p@)),
        !path_ok(param_list@) ==> (r matches Err(Error::InvalidOperation(_))),
{
    let mut path: Vec<String> = Vec::new();
    let mut i: usize = 0;
    while i < param_list.len()
        invariant
            i <= param_list@.len(),
            path@.len() == i,
            forall|k: int| 0 <= k < i ==> encodable(#[trigger] param_list@[k]@),
            forall|k: int| 0 <= k < i ==> (#[trigger] path@[k])@ == param_list@[k]@,
        decreases param_list@.len() - i,
    {
        let name: &str = param_list[i];
        if !is_encodable(name) {
            return Err(Error::InvalidOperation("a parameter name holds a NUL character".to_string()));
        }
        path.push(String::from_str(name));
        i = i + 1;
    }
    Ok(path)
}

impl Query {
    /// The record address is never null.
    #[verifier::type_invariant]
    spec fn non_null(self) -> bool {
        self.ptr != 0
    }

    /// Wraps a query that the engine has just created.
    pub fn new(ptr: u64) -> (r: Query)
        requires
            ptr != 0,
        ensures
            r@ == ptr,
    {
        Query { ptr }
    }

    /// The record's address.
    pub fn as_ptr(&self) -> (r: u64)
        ensures
            r == self@,
            r != 0,
    {
        proof {
            use_type_invariant(self);
        }
        self.ptr
    }

    /// The calls that releasing this query makes.
    pub fn drop_calls(&self) -> (r: Vec<EngineCall>)
        ensures
            r@ == seq![EngineCall::Destroy { kind: RecordKind::Query, target: Target::Existing(self@) }],
    {
        let v = vec![EngineCall::Destroy { kind: RecordKind::Query, target: Target::Existing(self.as_ptr()) }];
        proof {
            assert(v@ =~= seq![EngineCall::Destroy { kind: RecordKind::Query, target: Target::Existing(self@) }]);
        }
        v
    }

    /// The call that adds a term matching an identity at the end of a
    /// parameter path. A name with a NUL fails before any call.
    pub fn add_guid_match(&self, param_list: &[&str], guid: &Guid, op: QofQueryOp) -> (r: Result<
        EngineCall,
        Error,
    >)
        ensures
            !path_ok(param_list@) ==> (r matches Err(Error::InvalidOperation(_))),
            path_ok(param_list@) ==> (r matches Ok(EngineCall::AddGuidMatch { query, params, guid: g, op: o })
                && query == self@ && path_text(param_list@, params@) && g == *guid && o == op),
    {
        match owned_path(param_list) {
            Ok(params) => Ok(EngineCall::AddGuidMatch { query: self.as_ptr(), params, guid: *guid, op }),
            Err(e) => Err(e),
        }
    }

    /// The call that adds a term matching a flag at the end of a parameter
    /// path. A name with a NUL fails before any call.
    pub fn add_boolean_match(&self, param_list: &[&str], value: bool, op: QofQueryOp) -> (r: Result<
        EngineCall,
        Error,
    >)
        ensures
            !path_ok(param_list@) ==> (r matches Err(Error::InvalidOperation(_))),
            path_ok(param_list@) ==> (r matches Ok(EngineCall::AddBooleanMatch { query, params, value: v, op: o })
                && query == self@ && path_text(param_list@, params@) && v == value && o == op),
    {
        match owned_path(param_list) {
            Ok(params) => Ok(EngineCall::AddBooleanMatch { query: self.as_ptr(), params, value, op }),
            Err(e) => Err(e),
        }
    }
}

} // verus!
