//! The helper registry: helpers by name, and the dispatch of one call to
//! the helper that the name stands for.

use vstd::prelude::*;
use crate::bridge::{handler_call, prepare_call, HandlerCall, HandlerCallView};
use crate::context::{InvocationContext, InvocationView};
use crate::error::{HelperError, HelperErrorView};
use crate::helpers::{
    if_equals_action, json_action, unless_equals_action, ActionView, HelperAction, IfEqualsHelper,
    JsonHelper, UnlessEqualsHelper,
};
use crate::keyed::{
    distinct_keys, has_key, key_index, lemma_key_index_unique, lemma_upsert, upsert, value_of,
    without_key,
};

verus! {

/// A helper: one of the built-in ones, or an outside handler of type `H`.
#[derive(Debug)]
pub enum RegisteredHelper<H> {
    IfEquals(IfEqualsHelper),
    UnlessEquals(UnlessEqualsHelper),
    Json(JsonHelper),
    External(H),
}

/// What the engine is to do for one dispatched call.
#[derive(Debug)]
pub enum Dispatch<'a, H> {
    /// A built-in helper has decided.
    Native(HelperAction),
    /// Call this outside handler, once, with these texts.
    External(&'a H, HandlerCall),
}

/// The mathematical form of a `Dispatch`.
pub enum DispatchView<H> {
    Native(ActionView),
    External(H, HandlerCallView),
}

impl<'a, H> View for Dispatch<'a, H> {
    type V = DispatchView<H>;

    open spec fn view(&self) -> DispatchView<H> {
        match self {
            Dispatch::Native(action) => DispatchView::Native(action@),
            Dispatch::External(handler, call) => DispatchView::External(**handler, call@),
        }
    }
}

/// The views of a dispatch or a failure.
pub open spec fn dispatch_view<H>(r: Result<Dispatch<'_, H>, HelperError>) -> Result<
    DispatchView<H>,
    HelperErrorView,
> {
    match r {
        Ok(dispatch) => Ok(dispatch@),
        Err(e) => Err(e@),
    }
}

/// What a built-in helper's decision means for the engine.
pub open spec fn native<H>(decided: Result<ActionView, HelperErrorView>) -> Result<
    DispatchView<H>,
    HelperErrorView,
> {
    match decided {
        Ok(action) => Ok(DispatchView::Native(action)),
        Err(e) => Err(e),
    }
}

/// What one call of `helper` comes to: the decision of a built-in helper,
/// or the outside handler with what it is to be called with.
pub open spec fn helper_dispatch<H>(helper: RegisteredHelper<H>, invocation: InvocationView) -> Result<
    DispatchView<H>,
    HelperErrorView,
> {
    match helper {
        RegisteredHelper::IfEquals(_) => native(if_equals_action(invocation)),
        RegisteredHelper::UnlessEquals(_) => native(unless_equals_action(invocation)),
        RegisteredHelper::Json(_) => native(Ok(json_action(invocation))),
        RegisteredHelper::External(handler) => match handler_call(invocation) {
            Ok(call) => Ok(DispatchView::External(handler, call)),
            Err(e) => Err(e),
        },
    }
}

/// What a call by name comes to: `UnknownHelper` where the name stands for
/// nothing, else the call of the helper registered under it.
pub open spec fn dispatch_result<H>(
    helpers: Seq<(Seq<char>, RegisteredHelper<H>)>,
    name: Seq<char>,
    invocation: InvocationView,
) -> Result<DispatchView<H>, HelperErrorView> {
    if has_key(helpers, name) {
        helper_dispatch(value_of(helpers, name), invocation)
    } else {
        Err(HelperErrorView::UnknownHelper { name })
    }
}

/// The registry with the three built-in helpers under their names.
pub open spec fn with_extra_helpers<H>(helpers: Seq<(Seq<char>, RegisteredHelper<H>)>) -> Seq<
    (Seq<char>, RegisteredHelper<H>),
> {
    upsert(
        upsert(
            upsert(helpers, "ifEquals"@, RegisteredHelper::IfEquals(IfEqualsHelper {  })),
            "unlessEquals"@,
            RegisteredHelper::UnlessEquals(UnlessEqualsHelper {  }),
        ),
        "json"@,
        RegisteredHelper::Json(JsonHelper {  }),
    )
}

impl<H> RegisteredHelper<H> {
    /// Carries out one call of this helper as far as the library can.
    pub fn dispatch<'a>(&'a self, invocation: &InvocationContext) -> (r: Result<
        Dispatch<'a, H>,
        HelperError,
    >)
        ensures
            dispatch_view(r) == helper_dispatch(*self, invocation@),
    {
        match self {
            RegisteredHelper::IfEquals(helper) => match helper.call(invocation) {
                Ok(action) => Ok(Dispatch::Native(action)),
                Err(e) => Err(e),
            },
            RegisteredHelper::UnlessEquals(helper) => match helper.call(invocation) {
                Ok(action) => Ok(Dispatch::Native(action)),
                Err(e) => Err(e),
            },
            RegisteredHelper::Json(helper) => match helper.call(invocation) {
                Ok(action) => Ok(Dispatch::Native(action)),
                Err(e) => Err(e),
            },
            RegisteredHelper::External(handler) => match prepare_call(invocation) {
                Ok(call) => Ok(Dispatch::External(handler, call)),
                Err(e) => Err(e),
            },
        }
    }
}

/// Helpers by name. A name stands for one helper at most; registering under
/// a name that is taken replaces the helper that was there.
#[derive(Debug)]
pub struct HelperRegistry<H> {
    entries: Vec<(String, RegisteredHelper<H>)>,
}

/// The names and helpers of a run of entries.
pub open spec fn named<H>(entries: Seq<(String, RegisteredHelper<H>)>) -> Seq<(Seq<char>, RegisteredHelper<H>)> {
    Seq::new(entries.len(), |i: int| (entries[i].0@, entries[i].1))
}

impl<H> View for HelperRegistry<H> {
    type V = Seq<(Seq<char>, RegisteredHelper<H>)>;

    closed spec fn view(&self) -> Seq<(Seq<char>, RegisteredHelper<H>)> {
        named(self.entries@)
    }
}

impl<H> HelperRegistry<H> {
    /// Every registry keeps its names distinct.
    #[verifier::type_invariant]
    pub open spec fn names_are_distinct(&self) -> bool {
        distinct_keys(self@)
    }

    /// A registry without helpers.
    pub fn new() -> (r: HelperRegistry<H>)
        ensures
            r@ == Seq::<(Seq<char>, RegisteredHelper<H>)>::empty(),
    {
        let entries: Vec<(String, RegisteredHelper<H>)> = Vec::new();
        assert(named(entries@) =~= Seq::<(Seq<char>, RegisteredHelper<H>)>::empty());
        HelperRegistry { entries }
    }

    /// The number of registered helpers.
    pub fn len(&self) -> (n: usize)
        ensures
            n == self@.len(),
    {
        self.entries.len()
    }

    /// Where `name` is registered, if it is.
    fn position(&self, name: &str) -> (r: Option<usize>)
        ensures
            r is Some <==> has_key(self@, name@),
            r is Some ==> r->0 == key_index(self@, name@) && r->0 < self@.len(),
    {
        let wanted = name.to_owned();
        let mut i: usize = 0;
        while i < self.entries.len()
            invariant
                i <= self.entries.len(),
                self.entries.len() == self@.len(),
                wanted@ == name@,
                forall|k: int| 0 <= k < i ==> (#[trigger] self@[k]).0 != name@,
            decreases self.entries.len() - i,
        {
            if self.entries[i].0 == wanted {
                proof {
                    use_type_invariant(self);
                    lemma_key_index_unique(self@, i as int);
                }
                return Some(i);
            }
            i += 1;
        }
        None
    }

    /// Whether a helper is registered under `name`.
    pub fn has_helper(&self, name: &str) -> (r: bool)
        ensures
            r == has_key(self@, name@),
    {
        self.position(name).is_some()
    }

    /// The helper registered under `name`, or `UnknownHelper`.
    pub fn lookup(&self, name: &str) -> (r: Result<&RegisteredHelper<H>, HelperError>)
        ensures
            match r {
                Ok(helper) => has_key(self@, name@) && *helper == value_of(self@, name@),
                Err(e) => !has_key(self@, name@) && e@ == (HelperErrorView::UnknownHelper {
                    name: name@,
                }),
            },
    {
        match self.position(name) {
            Some(i) => Ok(&self.entries[i].1),
            None => Err(HelperError::UnknownHelper { name: name.to_owned() }),
        }
    }

    /// Registers `helper` under `name`. A helper that was registered under
    /// that name is replaced; this is no error.
    pub fn register(&mut self, name: &str, helper: RegisteredHelper<H>)
        ensures
            final(self)@ == upsert(old(self)@, name@, helper),
            distinct_keys(old(self)@) && distinct_keys(final(self)@),
            has_key(final(self)@, name@) && value_of(final(self)@, name@) == helper,
            final(self)@.len() == old(self)@.len() + (if has_key(old(self)@, name@) {
                0int
            } else {
                1int
            }),
    {
        let ghost before = self@;
        let ghost after = upsert(before, name@, helper);
        proof {
            use_type_invariant(&*self);
            lemma_upsert(before, name@, helper);
        }
        let found = self.position(name);
        let mut entries: Vec<(String, RegisteredHelper<H>)> = Vec::new();
        std::mem::swap(&mut entries, &mut self.entries);
        match found {
            Some(i) => {
                entries.set(i, (name.to_owned(), helper));
            },
            None => {
                entries.push((name.to_owned(), helper));
            },
        }
        assert(named(entries@) =~= after);
        self.entries = entries;
    }

    /// Takes away the helper registered under `name`, if there is one, and
    /// says whether there was.
    pub fn unregister(&mut self, name: &str) -> (r: bool)
        ensures
            r == has_key(old(self)@, name@),
            final(self)@ == without_key(old(self)@, name@),
            !has_key(final(self)@, name@),
    {
        let ghost before = self@;
        proof {
            use_type_invariant(&*self);
        }
        match self.position(name) {
            Some(i) => {
                let mut entries: Vec<(String, RegisteredHelper<H>)> = Vec::new();
                std::mem::swap(&mut entries, &mut self.entries);
                entries.remove(i);
                assert(named(entries@) =~= before.remove(i as int));
                assert(distinct_keys(before.remove(i as int))) by {
                    let after = before.remove(i as int);
                    assert forall|a: int, b: int| 0 <= a < b < after.len() implies (
                    #[trigger] after[a]).0 != (#[trigger] after[b]).0 by {
                        let a0 = if a < i { a } else { a + 1 };
                        let b0 = if b < i { b } else { b + 1 };
                        assert(after[a] == before[a0]);
                        assert(after[b] == before[b0]);
                    }
                }
                self.entries = entries;
                true
            },
            None => false,
        }
    }

    /// Registers the three built-in helpers under the names `ifEquals`,
    /// `unlessEquals` and `json`.
    pub fn register_extra_helpers(&mut self)
        ensures
            final(self)@ == with_extra_helpers(old(self)@),
    {
        self.register("ifEquals", RegisteredHelper::IfEquals(IfEqualsHelper {  }));
        self.register("unlessEquals", RegisteredHelper::UnlessEquals(UnlessEqualsHelper {  }));
        self.register("json", RegisteredHelper::Json(JsonHelper {  }));
    }

    /// Dispatches one call by name: looks the helper up and carries its
    /// call out as far as the library can.
    pub fn dispatch<'a>(&'a self, name: &str, invocation: &InvocationContext) -> (r: Result<
        Dispatch<'a, H>,
        HelperError,
    >)
        ensures
            dispatch_view(r) == dispatch_result(self@, name@, invocation@),
    {
        match self.lookup(name) {
            Ok(helper) => helper.dispatch(invocation),
            Err(e) => Err(e),
        }
    }
}

/// Registering twice under one name leaves only the second helper there:
/// the name is dispatched to it, the registry is no longer than after the
/// first registration, and every other name is dispatched as before.
pub proof fn lemma_register_replaces<H>(
    helpers: Seq<(Seq<char>, RegisteredHelper<H>)>,
    name: Seq<char>,
    first: RegisteredHelper<H>,
    second: RegisteredHelper<H>,
    other: Seq<char>,
    invocation: InvocationView,
)
    requires
        distinct_keys(helpers),
    ensures
        ({
            let once = upsert(helpers, name, first);
            let twice = upsert(once, name, second);
            &&& distinct_keys(twice)
            &&& twice.len() == once.len()
            &&& has_key(twice, name)
            &&& value_of(twice, name) == second
            &&& dispatch_result(twice, name, invocation) == helper_dispatch(second, invocation)
            &&& other != name ==> dispatch_result(twice, other, invocation) == dispatch_result(
                helpers,
                other,
                invocation,
            )
        }),
{
    let once = upsert(helpers, name, first);
    let twice = upsert(once, name, second);
    lemma_upsert(helpers, name, first);
    lemma_upsert(once, name, second);
}

/// Once the built-in helpers are registered, each of their names is
/// dispatched to its helper, and every other name as before.
pub proof fn lemma_extra_helpers<H>(
    helpers: Seq<(Seq<char>, RegisteredHelper<H>)>,
    other: Seq<char>,
    invocation: InvocationView,
)
    requires
        distinct_keys(helpers),
    ensures
        ({
            let all = with_extra_helpers(helpers);
            &&& distinct_keys(all)
            &&& dispatch_result(all, "ifEquals"@, invocation) == native::<H>(
                if_equals_action(invocation),
            )
            &&& dispatch_result(all, "unlessEquals"@, invocation) == native::<H>(
                unless_equals_action(invocation),
            )
            &&& dispatch_result(all, "json"@, invocation) == native::<H>(
                Ok(json_action(invocation)),
            )
            &&& other != "ifEquals"@ && other != "unlessEquals"@ && other != "json"@
                ==> dispatch_result(all, other, invocation) == dispatch_result(
                helpers,
                other,
                invocation,
            )
        }),
{
    reveal_strlit("ifEquals");
    reveal_strlit("unlessEquals");
    reveal_strlit("json");
    assert("ifEquals"@.len() == 8 && "unlessEquals"@.len() == 12 && "json"@.len() == 4);
    let one = upsert(helpers, "ifEquals"@, RegisteredHelper::<H>::IfEquals(IfEqualsHelper {  }));
    let two = upsert(one, "unlessEquals"@, RegisteredHelper::<H>::UnlessEquals(UnlessEqualsHelper {  }));
    let all = upsert(two, "json"@, RegisteredHelper::<H>::Json(JsonHelper {  }));
    lemma_upsert(helpers, "ifEquals"@, RegisteredHelper::<H>::IfEquals(IfEqualsHelper {  }));
    lemma_upsert(one, "unlessEquals"@, RegisteredHelper::<H>::UnlessEquals(UnlessEqualsHelper {  }));
    lemma_upsert(two, "json"@, RegisteredHelper::<H>::Json(JsonHelper {  }));
}

} // verus!
