//! The parameter binder: turns a statement's ordered parameter references
//! into a backend-agnostic argument bundle, reading request variables
//! directly and taking the external value-extraction collaborator's
//! outcomes for every other reference.
use vstd::prelude::*;
use crate::plan::{StmtParam, StmtParamView, StmtWithParams};
use crate::request::{spec_lookup, RequestInfo, RequestView, SingleOrVec};
use vstd::hash_map::StringHashMap;

verus! {

/// One value of the argument bundle, erased to a tagged variant.
pub enum Argument {
    Text(String),
    Number(i64),
    Boolean(bool),
    Null,
}

/// The mathematical value of an [`Argument`].
pub ghost enum ArgumentView {
    Text(Seq<char>),
    Number(int),
    Boolean(bool),
    Null,
}

impl View for Argument {
    type V = ArgumentView;

    open spec fn view(&self) -> ArgumentView {
        match self {
            Argument::Text(s) => ArgumentView::Text(s@),
            Argument::Number(n) => ArgumentView::Number(*n as int),
            Argument::Boolean(b) => ArgumentView::Boolean(*b),
            Argument::Null => ArgumentView::Null,
        }
    }
}

impl DeepView for Argument {
    type V = ArgumentView;

    open spec fn deep_view(&self) -> ArgumentView {
        self.view()
    }
}

/// A statement ready for backend execution: its SQL text paired with the
/// fully built argument bundle.
pub struct StatementWithParams {
    pub sql: String,
    pub arguments: Vec<Argument>,
}

/// The mathematical value of a [`StatementWithParams`].
pub ghost struct StatementWithParamsView {
    pub sql: Seq<char>,
    pub arguments: Seq<ArgumentView>,
}

impl View for StatementWithParams {
    type V = StatementWithParamsView;

    open spec fn view(&self) -> StatementWithParamsView {
        StatementWithParamsView { sql: self.sql@, arguments: self.arguments.deep_view() }
    }
}

/// One outcome of the external value-extraction collaborator for one
/// parameter reference: a present value, an explicit absence, or a
/// failure with its message.
pub enum ExtractOutcome {
    Present(String),
    Absent,
    Failure(String),
}

/// The mathematical value of an [`ExtractOutcome`].
pub ghost enum ExtractOutcomeView {
    Present(Seq<char>),
    Absent,
    Failure(Seq<char>),
}

impl View for ExtractOutcome {
    type V = ExtractOutcomeView;

    open spec fn view(&self) -> ExtractOutcomeView {
        match self {
            ExtractOutcome::Present(s) => ExtractOutcomeView::Present(s@),
            ExtractOutcome::Absent => ExtractOutcomeView::Absent,
            ExtractOutcome::Failure(m) => ExtractOutcomeView::Failure(m@),
        }
    }
}

impl DeepView for ExtractOutcome {
    type V = ExtractOutcomeView;

    open spec fn deep_view(&self) -> ExtractOutcomeView {
        self.view()
    }
}

/// Whether a parameter reference must be resolved by the external
/// value-extraction collaborator.
pub open spec fn is_external(p: StmtParamView) -> bool {
    p is External
}

/// The parameter references of `params` that the external collaborator
/// must resolve, in order.
pub open spec fn externals(params: Seq<StmtParamView>) -> Seq<StmtParamView>
    decreases params.len(),
{
    if params.len() == 0 {
        Seq::empty()
    } else if is_external(params.last()) {
        externals(params.drop_last()).push(params.last())
    } else {
        externals(params.drop_last())
    }
}

/// How the engine itself resolves one parameter reference from the request
/// context: `None` means the reference is external; otherwise the value is
/// the variable's text, or an explicit NULL when the variable is absent.
pub open spec fn spec_resolve(req: RequestView, p: StmtParamView) -> Option<Option<Seq<char>>> {
    match p {
        StmtParamView::Get(n) => Some(spec_lookup(req.get, n)),
        StmtParamView::Post(n) => Some(spec_lookup(req.post, n)),
        StmtParamView::GetOrPost(n) => Some(
            if req.get.contains_key(n) {
                spec_lookup(req.get, n)
            } else {
                spec_lookup(req.post, n)
            },
        ),
        StmtParamView::External(_) => None,
    }
}

/// The argument bound for one resolved value: a present value binds as
/// text, an absent one as an explicit NULL.
pub open spec fn arg_of(v: Option<Seq<char>>) -> ArgumentView {
    match v {
        Some(s) => ArgumentView::Text(s),
        None => ArgumentView::Null,
    }
}

/// What binding the parameters `params[i..]` yields, with `ext[j..]` the
/// external collaborator's outcomes still unconsumed: either the bound
/// arguments in order, or the 1-based index of the first failing parameter
/// with its cause.
pub open spec fn spec_bind(
    params: Seq<StmtParamView>,
    req: RequestView,
    ext: Seq<ExtractOutcomeView>,
    i: int,
    j: int,
) -> Result<Seq<ArgumentView>, (int, Seq<char>)>
    decreases params.len() - i,
{
    if i < 0 || i >= params.len() {
        Ok(Seq::empty())
    } else {
        match spec_resolve(req, params[i]) {
            Some(v) => match spec_bind(params, req, ext, i + 1, j) {
                Ok(rest) => Ok(seq![arg_of(v)] + rest),
                Err(e) => Err(e),
            },
            None => {
                if j < 0 || j >= ext.len() {
                    Err((i + 1, Seq::empty()))
                } else {
                    match ext[j] {
                        ExtractOutcomeView::Failure(m) => Err((i + 1, m)),
                        ExtractOutcomeView::Present(s) => match spec_bind(
                            params,
                            req,
                            ext,
                            i + 1,
                            j + 1,
                        ) {
                            Ok(rest) => Ok(seq![ArgumentView::Text(s)] + rest),
                            Err(e) => Err(e),
                        },
                        ExtractOutcomeView::Absent => match spec_bind(
                            params,
                            req,
                            ext,
                            i + 1,
                            j + 1,
                        ) {
                            Ok(rest) => Ok(seq![ArgumentView::Null] + rest),
                            Err(e) => Err(e),
                        },
                    }
                }
            },
        }
    }
}

/// Prepends already-bound arguments to the outcome of binding the rest.
pub open spec fn bind_combine(
    acc: Seq<ArgumentView>,
    rest: Result<Seq<ArgumentView>, (int, Seq<char>)>,
) -> Result<Seq<ArgumentView>, (int, Seq<char>)> {
    match rest {
        Ok(args) => Ok(acc + args),
        Err(e) => Err(e),
    }
}

/// Taking a longer prefix never loses external parameters.
proof fn lemma_externals_take_le(params: Seq<StmtParamView>, k: int)
    requires
        0 <= k <= params.len(),
    ensures
        externals(params.take(k)).len() <= externals(params).len(),
    decreases params.len() - k,
{
    if k == params.len() {
        assert(params.take(k) =~= params);
    } else {
        assert(params.take(k + 1).drop_last() =~= params.take(k));
        assert(params.take(k + 1).last() == params[k]);
        lemma_externals_take_le(params, k + 1);
    }
}

/// A binding failure: the 1-based position of the parameter that could not
/// be resolved, and the underlying cause.
#[derive(Debug)]
pub struct BindFailure {
    pub param_index: usize,
    pub cause: String,
}

/// Looks one variable name up in one scope and renders its text.
fn lookup_scope(m: &StringHashMap<SingleOrVec>, name: &String) -> (r: Option<String>)
    ensures
        match r {
            Some(s) => spec_lookup(crate::request::scope_view(m@), name@) == Some(s@),
            None => spec_lookup(crate::request::scope_view(m@), name@) is None,
        },
{
    match m.get(name.as_str()) {
        Some(v) => {
            let text = crate::request::single_or_vec_text(v);
            proof {
                assert(crate::request::scope_view(m@)[name@] == v@);
            }
            Some(text)
        },
        None => None,
    }
}

/// Binds a statement's parameters in order: request variables are read
/// from the context, every other reference consumes the next outcome of
/// the external collaborator. The first failing outcome stops binding with
/// the parameter's 1-based index and the underlying cause.
pub fn bind_parameters(
    stmt: &StmtWithParams,
    request: &RequestInfo,
    extracted: &Vec<ExtractOutcome>,
) -> (r: Result<StatementWithParams, BindFailure>)
    requires
        extracted.deep_view().len() == externals(stmt@.params).len(),
    ensures
        match r {
            Ok(q) => spec_bind(stmt@.params, request@, extracted.deep_view(), 0, 0)
                == Ok::<Seq<ArgumentView>, (int, Seq<char>)>(q@.arguments) && q@.sql == stmt@.query,
            Err(f) => spec_bind(stmt@.params, request@, extracted.deep_view(), 0, 0) == Err::<
                Seq<ArgumentView>,
                (int, Seq<char>),
            >((f.param_index as int, f.cause@)) && 1 <= f.param_index <= stmt@.params.len(),
        },
{
    let ghost pv = stmt@.params;
    let ghost reqv = request@;
    let ghost ev = extracted.deep_view();
    let mut arguments: Vec<Argument> = Vec::new();
    let mut i: usize = 0;
    let mut j: usize = 0;
    while i < stmt.params.len()
        invariant
            i <= stmt.params.len(),
            pv == stmt@.params,
            reqv == request@,
            ev == extracted.deep_view(),
            ev.len() == externals(pv).len(),
            j == externals(pv.take(i as int)).len(),
            j <= ev.len(),
            spec_bind(pv, reqv, ev, 0, 0) == bind_combine(
                arguments.deep_view(),
                spec_bind(pv, reqv, ev, i as int, j as int),
            ),
        decreases stmt.params.len() - i,
    {
        let ghost acc0 = arguments.deep_view();
        let param = &stmt.params[i];
        let bound: Argument = match param {
            StmtParam::Get(n) => match lookup_scope(&request.get_variables, n) {
                Some(s) => Argument::Text(s),
                None => Argument::Null,
            },
            StmtParam::Post(n) => match lookup_scope(&request.post_variables, n) {
                Some(s) => Argument::Text(s),
                None => Argument::Null,
            },
            StmtParam::GetOrPost(n) => {
                if request.get_variables.contains_key(n.as_str()) {
                    match lookup_scope(&request.get_variables, n) {
                        Some(s) => Argument::Text(s),
                        None => Argument::Null,
                    }
                } else {
                    match lookup_scope(&request.post_variables, n) {
                        Some(s) => Argument::Text(s),
                        None => Argument::Null,
                    }
                }
            },
            StmtParam::External(_) => {
                proof {
                    assert(pv.take(i + 1).drop_last() =~= pv.take(i as int));
                    assert(pv.take(i + 1).last() == pv[i as int]);
                    lemma_externals_take_le(pv, i + 1);
                }
                match &extracted[j] {
                    ExtractOutcome::Present(s) => Argument::Text(s.clone()),
                    ExtractOutcome::Absent => Argument::Null,
                    ExtractOutcome::Failure(m) => {
                        proof {
                            assert(spec_bind(pv, reqv, ev, i as int, j as int) == Err::<
                                Seq<ArgumentView>,
                                (int, Seq<char>),
                            >((i + 1, m@)));
                        }
                        return Err(BindFailure { param_index: i + 1, cause: m.clone() });
                    },
                }
            },
        };
        let ghost is_ext = is_external(pv[i as int]);
        arguments.push(bound);
        if let StmtParam::External(_) = param {
            proof {
                assert(ev.len() == extracted@.len());
                assert(pv[i as int] == param@);
                assert(is_external(pv[i as int]));
                assert(pv.take(i + 1).drop_last() =~= pv.take(i as int));
                assert(pv.take(i + 1).last() == pv[i as int]);
                assert(externals(pv.take(i + 1)) =~= externals(pv.take(i as int)).push(
                    pv[i as int],
                ));
                lemma_externals_take_le(pv, i + 1);
                assert(j + 1 <= ev.len());
            }
            let ext_count = extracted.len();
            proof {
                assert(j + 1 <= ext_count);
            }
            j = j + 1;
        }
        proof {
            assert(pv.take(i + 1).drop_last() =~= pv.take(i as int));
            assert(pv.take(i + 1).last() == pv[i as int]);
            assert(arguments.deep_view() =~= acc0.push(bound@));
            let rest = spec_bind(pv, reqv, ev, i + 1, j as int);
            match rest {
                Ok(rs) => {
                    assert(acc0 + (seq![bound@] + rs) =~= acc0.push(bound@) + rs);
                },
                Err(_) => {},
            }
        }
        i = i + 1;
    }
    proof {
        assert(pv.take(pv.len() as int) =~= pv);
        assert(spec_bind(pv, reqv, ev, pv.len() as int, j as int) == Ok::<
            Seq<ArgumentView>,
            (int, Seq<char>),
        >(Seq::empty()));
        assert(arguments.deep_view() + Seq::<ArgumentView>::empty() =~= arguments.deep_view());
    }
    Ok(StatementWithParams { sql: stmt.query.clone(), arguments })
}

/// Collects the parameter references of a statement that the external
/// collaborator must resolve, in order.
pub fn collect_externals(params: &Vec<StmtParam>) -> (r: Vec<StmtParam>)
    ensures
        r.deep_view() == externals(params.deep_view()),
{
    let ghost pv = params.deep_view();
    let mut r: Vec<StmtParam> = Vec::new();
    let mut i: usize = 0;
    while i < params.len()
        invariant
            i <= params.len(),
            pv == params.deep_view(),
            r.deep_view() == externals(pv.take(i as int)),
        decreases params.len() - i,
    {
        let ghost before = r.deep_view();
        if let StmtParam::External(_) = &params[i] {
            r.push(params[i].clone());
        }
        proof {
            assert(pv.take(i + 1).drop_last() =~= pv.take(i as int));
            assert(pv.take(i + 1).last() == pv[i as int]);
            if is_external(pv[i as int]) {
                assert(r.deep_view() =~= before.push(pv[i as int]));
            }
            assert(r.deep_view() =~= externals(pv.take(i + 1)));
        }
        i = i + 1;
    }
    proof {
        assert(pv.take(params@.len() as int) =~= pv);
    }
    r
}

} // verus!
