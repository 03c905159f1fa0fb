//! The request-scoped variable context: one GET-scope and one POST-scope
//! mapping from variable name to a single string or a multi-valued
//! collection, owned by a single in-flight request.
use vstd::prelude::*;
use vstd::hash_map::StringHashMap;
use vstd::string::StringExecFns;
use crate::error::ErrorChain;
use crate::plan::StmtParam;

verus! {

/// A request variable's value: a single string or a multi-valued collection.
pub enum SingleOrVec {
    Single(String),
    Multi(Vec<String>),
}

/// The mathematical value of a [`SingleOrVec`].
pub ghost enum VarValue {
    Single(Seq<char>),
    Multi(Seq<Seq<char>>),
}

impl View for SingleOrVec {
    type V = VarValue;

    open spec fn view(&self) -> VarValue {
        match self {
            SingleOrVec::Single(s) => VarValue::Single(s@),
            SingleOrVec::Multi(vs) => VarValue::Multi(vs.deep_view()),
        }
    }
}

impl Clone for SingleOrVec {
    fn clone(&self) -> (r: Self)
        ensures
            r@ == self@,
    {
        match self {
            SingleOrVec::Single(s) => SingleOrVec::Single(s.clone()),
            SingleOrVec::Multi(vs) => {
                let copy = vs.clone();
                proof {
                    assert forall|i: int| 0 <= i < vs@.len() implies copy@[i] == vs@[i] by {
                        assert(cloned(vs[i], copy[i]));
                    }
                    assert(copy@ =~= vs@);
                }
                SingleOrVec::Multi(copy)
            },
        }
    }
}

/// The values of a multi-valued variable joined with commas.
pub open spec fn comma_join(vs: Seq<Seq<char>>) -> Seq<char>
    decreases vs.len(),
{
    if vs.len() == 0 {
        Seq::empty()
    } else if vs.len() == 1 {
        vs[0]
    } else {
        comma_join(vs.drop_last()) + ","@ + vs.last()
    }
}

/// The text a variable's value contributes when it is bound as a statement
/// parameter: a single value is taken as it is, a multi-valued collection
/// is joined with commas.
pub open spec fn var_text(v: VarValue) -> Seq<char> {
    match v {
        VarValue::Single(s) => s,
        VarValue::Multi(vs) => comma_join(vs),
    }
}

/// Renders one variable value as the text bound for it.
pub fn single_or_vec_text(v: &SingleOrVec) -> (r: String)
    ensures
        r@ == var_text(v@),
{
    match v {
        SingleOrVec::Single(s) => s.clone(),
        SingleOrVec::Multi(vs) => {
            let mut acc = String::new();
            let mut i: usize = 0;
            while i < vs.len()
                invariant
                    i <= vs.len(),
                    acc@ == comma_join(vs.deep_view().take(i as int)),
                decreases vs.len() - i,
            {
                if i > 0 {
                    acc.append(",");
                }
                acc.append(vs[i].as_str());
                proof {
                    reveal_strlit(",");
                    let pre = vs.deep_view().take(i + 1);
                    assert(pre.drop_last() =~= vs.deep_view().take(i as int));
                    assert(pre.last() == vs@[i as int]@);
                    assert(acc@ =~= comma_join(pre));
                }
                i = i + 1;
            }
            proof {
                assert(vs.deep_view().take(vs@.len() as int) =~= vs.deep_view());
            }
            acc
        },
    }
}

/// The text a named variable contributes in one scope: its value's text
/// when the name is present, `None` (an explicit NULL) when it is absent.
pub open spec fn spec_lookup(m: Map<Seq<char>, VarValue>, name: Seq<char>) -> Option<Seq<char>> {
    if m.contains_key(name) {
        Some(var_text(m[name]))
    } else {
        None
    }
}

/// The variable context of one in-flight request: its GET-scope and
/// POST-scope variables.
pub struct RequestInfo {
    pub get_variables: StringHashMap<SingleOrVec>,
    pub post_variables: StringHashMap<SingleOrVec>,
}

/// The mathematical value of a [`RequestInfo`]: both scopes as maps from
/// name to variable value.
pub ghost struct RequestView {
    pub get: Map<Seq<char>, VarValue>,
    pub post: Map<Seq<char>, VarValue>,
}

/// One scope's mapping, with each stored value abstracted to its
/// mathematical form.
pub open spec fn scope_view(m: Map<Seq<char>, SingleOrVec>) -> Map<Seq<char>, VarValue> {
    m.map_values(|v: SingleOrVec| v@)
}

impl View for RequestInfo {
    type V = RequestView;

    open spec fn view(&self) -> RequestView {
        RequestView { get: scope_view(self.get_variables@), post: scope_view(self.post_variables@) }
    }
}

impl RequestInfo {
    /// A context with no variables in either scope.
    pub fn new() -> (r: RequestInfo)
        ensures
            r@.get == Map::<Seq<char>, VarValue>::empty(),
            r@.post == Map::<Seq<char>, VarValue>::empty(),
    {
        let r = RequestInfo {
            get_variables: StringHashMap::new(),
            post_variables: StringHashMap::new(),
        };
        proof {
            assert(r@.get =~= Map::<Seq<char>, VarValue>::empty());
            assert(r@.post =~= Map::<Seq<char>, VarValue>::empty());
        }
        r
    }
}

/// The two variable scopes a statement may assign to.
pub enum TargetScope {
    Get,
    Post,
}

/// The message reported when a statement assigns to something that is not
/// a GET or POST variable.
pub open spec fn scope_error_message(description: Seq<char>) -> Seq<char> {
    "Only GET and POST variables can be set, not "@ + description
}

/// The cause chain of a Scope Error: its single message.
pub open spec fn scope_error_chain(description: Seq<char>) -> Seq<Seq<char>> {
    seq![scope_error_message(description)]
}

/// Decides which variable scope an assignment target names. GET-scope and
/// GET-or-POST targets assign the GET scope, POST-scope targets the POST
/// scope; any other parameter reference is invalid as an assignment target
/// and yields a Scope Error.
pub fn vars_and_name(variable: &StmtParam) -> (r: Result<(TargetScope, String), ErrorChain>)
    ensures
        match variable {
            StmtParam::Get(n) => r matches Ok((TargetScope::Get, name)) && name@ == n@,
            StmtParam::GetOrPost(n) => r matches Ok((TargetScope::Get, name)) && name@ == n@,
            StmtParam::Post(n) => r matches Ok((TargetScope::Post, name)) && name@ == n@,
            StmtParam::External(d) => r matches Err(e) && e@ == seq![scope_error_message(d@)],
        },
{
    match variable {
        StmtParam::Get(n) => Ok((TargetScope::Get, n.clone())),
        StmtParam::GetOrPost(n) => Ok((TargetScope::Get, n.clone())),
        StmtParam::Post(n) => Ok((TargetScope::Post, n.clone())),
        StmtParam::External(d) => {
            let mut message = String::from_str("Only GET and POST variables can be set, not ");
            message.append(d.as_str());
            proof {
                assert(message@ =~= scope_error_message(d@));
            }
            Err(ErrorChain::single(message))
        },
    }
}

/// Applies an assignment's outcome to the named variable: a present value
/// is stored as a single-value entry under the name (replacing any prior
/// entry, multi-valued or not), an absent value removes the name from the
/// scope. The other scope is left untouched.
pub fn apply_variable(
    request: &mut RequestInfo,
    scope: &TargetScope,
    name: String,
    value: Option<String>,
)
    ensures
        match (scope, value) {
            (TargetScope::Get, Some(v)) => final(request)@.get == old(request)@.get.insert(
                name@,
                VarValue::Single(v@),
            ) && final(request)@.post == old(request)@.post,
            (TargetScope::Get, None) => final(request)@.get == old(request)@.get.remove(name@)
                && final(request)@.post == old(request)@.post,
            (TargetScope::Post, Some(v)) => final(request)@.post == old(request)@.post.insert(
                name@,
                VarValue::Single(v@),
            ) && final(request)@.get == old(request)@.get,
            (TargetScope::Post, None) => final(request)@.post == old(request)@.post.remove(name@)
                && final(request)@.get == old(request)@.get,
        },
{
    let ghost name_chars = name@;
    match (scope, value) {
        (TargetScope::Get, Some(v)) => {
            let ghost before = request.get_variables@;
            let ghost v_chars = v@;
            request.get_variables.insert(name, SingleOrVec::Single(v));
            proof {
                assert(scope_view(before.insert(name_chars, SingleOrVec::Single(v))) =~= scope_view(
                    before,
                ).insert(name_chars, VarValue::Single(v_chars)));
            }
        },
        (TargetScope::Get, None) => {
            let ghost before = request.get_variables@;
            request.get_variables.remove(name.as_str());
            proof {
                assert(scope_view(before.remove(name_chars)) =~= scope_view(before).remove(
                    name_chars,
                ));
            }
        },
        (TargetScope::Post, Some(v)) => {
            let ghost before = request.post_variables@;
            let ghost v_chars = v@;
            request.post_variables.insert(name, SingleOrVec::Single(v));
            proof {
                assert(scope_view(before.insert(name_chars, SingleOrVec::Single(v))) =~= scope_view(
                    before,
                ).insert(name_chars, VarValue::Single(v_chars)));
            }
        },
        (TargetScope::Post, None) => {
            let ghost before = request.post_variables@;
            request.post_variables.remove(name.as_str());
            proof {
                assert(scope_view(before.remove(name_chars)) =~= scope_view(before).remove(
                    name_chars,
                ));
            }
        },
    }
}

} // verus!
