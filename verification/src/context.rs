//! The snapshot of one helper call: its positional parameters, its named
//! options and the data against which the call site renders.

use vstd::prelude::*;
use crate::error::{HelperError, HelperErrorView};
use crate::keyed::{distinct_keys, has_key, value_of};
use crate::value::{views_of, well_formed, JsonValue, JsonView, Object};

verus! {

/// What one helper call was given. Every expression has been resolved
/// before the snapshot is made, and nothing changes it afterwards.
#[derive(Clone, Debug)]
pub struct InvocationContext {
    params: Vec<JsonValue>,
    hash: Object,
    data_context: JsonValue,
}

/// The mathematical form of an `InvocationContext`.
pub struct InvocationView {
    pub params: Seq<JsonView>,
    pub hash: Seq<(Seq<char>, JsonView)>,
    pub data_context: JsonView,
}

/// Whether everything that a call holds is well-formed: every parameter,
/// every named option and the data, and no option named twice.
pub open spec fn invocation_well_formed(invocation: InvocationView) -> bool {
    &&& forall|i: int|
        0 <= i < invocation.params.len() ==> well_formed(#[trigger] invocation.params[i])
    &&& distinct_keys(invocation.hash)
    &&& forall|i: int|
        0 <= i < invocation.hash.len() ==> well_formed((#[trigger] invocation.hash[i]).1)
    &&& well_formed(invocation.data_context)
}

/// The parameter at `index`, or the failure that names the helper and the
/// index where there is none.
pub open spec fn required_param(
    invocation: InvocationView,
    helper: Seq<char>,
    index: nat,
) -> Result<JsonView, HelperErrorView> {
    if index < invocation.params.len() {
        Ok(invocation.params[index as int])
    } else {
        Err(HelperErrorView::MissingParameter { helper, index })
    }
}

impl View for InvocationContext {
    type V = InvocationView;

    closed spec fn view(&self) -> InvocationView {
        InvocationView {
            params: views_of(self.params@),
            hash: self.hash@,
            data_context: self.data_context@,
        }
    }
}

impl InvocationContext {
    /// The snapshot of a call with these parameters, options and data.
    pub fn new(params: Vec<JsonValue>, hash: Object, data_context: JsonValue) -> (r:
        InvocationContext)
        ensures
            r@ == (InvocationView {
                params: views_of(params@),
                hash: hash@,
                data_context: data_context@,
            }),
    {
        InvocationContext { params, hash, data_context }
    }

    /// The positional parameters, in the order of the call.
    pub fn params(&self) -> (r: &Vec<JsonValue>)
        ensures
            views_of(r@) == self@.params,
    {
        &self.params
    }

    /// The named options.
    pub fn hash(&self) -> (r: &Object)
        ensures
            r@ == self@.hash,
    {
        &self.hash
    }

    /// The data against which the call site renders.
    pub fn data_context(&self) -> (r: &JsonValue)
        ensures
            r@ == self@.data_context,
    {
        &self.data_context
    }

    /// The positional parameter at `index`, if the call has one there.
    pub fn param(&self, index: usize) -> (r: Option<&JsonValue>)
        ensures
            r is Some <==> index < self@.params.len(),
            r is Some ==> r->0@ == self@.params[index as int],
    {
        if index < self.params.len() {
            Some(&self.params[index])
        } else {
            None
        }
    }

    /// The positional parameter at `index`, which the helper `helper` cannot
    /// do without.
    pub fn require_param(&self, helper: &str, index: usize) -> (r: Result<&JsonValue, HelperError>)
        ensures
            match r {
                Ok(value) => required_param(self@, helper@, index as nat) == Ok::<
                    JsonView,
                    HelperErrorView,
                >(value@),
                Err(e) => required_param(self@, helper@, index as nat) == Err::<
                    JsonView,
                    HelperErrorView,
                >(e@),
            },
    {
        if index < self.params.len() {
            Ok(&self.params[index])
        } else {
            Err(HelperError::MissingParameter { helper: helper.to_owned(), index })
        }
    }

    /// The named option `key`, if the call has it.
    pub fn hash_get(&self, key: &str) -> (r: Option<&JsonValue>)
        ensures
            r is Some <==> has_key(self@.hash, key@),
            r is Some ==> r->0@ == value_of(self@.hash, key@),
    {
        self.hash.get(key)
    }
}

} // verus!
