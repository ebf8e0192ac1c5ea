//! Inter-procedural propagation of mutation facts through storage-reference
//! parameters. A callee that mutates its storage parameter effectively
//! mutates whatever the caller passed there; the caller may have passed a
//! state variable, or one of its own storage parameters, which hands the
//! fact one level further up. The propagator folds these facts over all call
//! sites for a fixed number of rounds; a round that adds nothing leaves the
//! state unchanged, so running the remaining rounds is harmless and the cap
//! bounds the work without an early-exit test.

use vstd::prelude::*;
use crate::analyzer::{ArgFact, ArgFactV};
use crate::models::StorageParamInfo;
use crate::names::{names_of, push_unique, push_unique_spec};

verus! {

broadcast use crate::names::group_names_axioms;

/// How many propagation rounds are run. Each round moves every known fact
/// one call edge further, so chains of storage-parameter indirection deeper
/// than this under-approximate rather than diverge.
pub const MAX_PROPAGATION_ROUNDS: usize = 10;

/// The views of a row of parameter positions.
pub open spec fn iv_view(s: Seq<usize>) -> Seq<int> {
    s.map_values(|x: usize| x as int)
}

pub broadcast proof fn iv_view_len(s: Seq<usize>)
    ensures
        #[trigger] iv_view(s).len() == s.len(),
{
}

pub broadcast proof fn iv_view_index(s: Seq<usize>, i: int)
    requires
        0 <= i < s.len(),
    ensures
        #[trigger] iv_view(s)[i] == s[i] as int,
{
}

pub broadcast group group_iv_axioms {
    iv_view_len,
    iv_view_index,
}

/// Insert a position into a duplicate-free position sequence.
pub open spec fn push_unique_int_spec(s: Seq<int>, x: int) -> Seq<int> {
    if s.contains(x) {
        s
    } else {
        s.push(x)
    }
}

/// Append a position unless it is already present.
pub fn push_unique_pos(v: &mut Vec<usize>, x: usize)
    ensures
        iv_view(final(v)@) == push_unique_int_spec(iv_view(old(v)@), x as int),
{
    broadcast use group_iv_axioms;

    let mut i: usize = 0;
    while i < v.len()
        invariant
            i <= v.len(),
            forall|j: int| 0 <= j < i ==> iv_view(v@)[j] != x as int,
        decreases v.len() - i,
    {
        if v[i] == x {
            assert(iv_view(v@)[i as int] == x as int);
            return ;
        }
        i += 1;
    }
    assert(!iv_view(v@).contains(x as int));
    v.push(x);
    assert(iv_view(v@) =~= iv_view(old(v)@).push(x as int));
}

/// Whether a position is present.
pub fn contains_pos(v: &Vec<usize>, x: usize) -> (b: bool)
    ensures
        b == iv_view(v@).contains(x as int),
{
    broadcast use group_iv_axioms;

    let mut i: usize = 0;
    while i < v.len()
        invariant
            i <= v.len(),
            forall|j: int| 0 <= j < i ==> iv_view(v@)[j] != x as int,
        decreases v.len() - i,
    {
        if v[i] == x {
            assert(iv_view(v@)[i as int] == x as int);
            return true;
        }
        i += 1;
    }
    false
}

/// The views of a per-function list of mutated-state rows.
pub open spec fn mods_view(s: Seq<Vec<String>>) -> Seq<Seq<Seq<char>>> {
    s.map_values(|v: Vec<String>| names_of(v@))
}

pub broadcast proof fn mods_view_len(s: Seq<Vec<String>>)
    ensures
        #[trigger] mods_view(s).len() == s.len(),
{
}

pub broadcast proof fn mods_view_index(s: Seq<Vec<String>>, i: int)
    requires
        0 <= i < s.len(),
    ensures
        #[trigger] mods_view(s)[i] == names_of(s[i]@),
{
}

pub broadcast proof fn mods_view_update(s: Seq<Vec<String>>, i: int, v: Vec<String>)
    requires
        0 <= i < s.len(),
    ensures
        #[trigger] mods_view(s.update(i, v)) =~= mods_view(s).update(i, names_of(v@)),
{
    broadcast use mods_view_len, mods_view_index;

}

pub broadcast group group_mods_axioms {
    mods_view_len,
    mods_view_index,
    mods_view_update,
}

/// The views of a per-function list of mutated-parameter rows.
pub open spec fn mutp_view(s: Seq<Vec<usize>>) -> Seq<Seq<int>> {
    s.map_values(|v: Vec<usize>| iv_view(v@))
}

pub broadcast proof fn mutp_view_len(s: Seq<Vec<usize>>)
    ensures
        #[trigger] mutp_view(s).len() == s.len(),
{
}

pub broadcast proof fn mutp_view_index(s: Seq<Vec<usize>>, i: int)
    requires
        0 <= i < s.len(),
    ensures
        #[trigger] mutp_view(s)[i] == iv_view(s[i]@),
{
}

pub broadcast proof fn mutp_view_update(s: Seq<Vec<usize>>, i: int, v: Vec<usize>)
    requires
        0 <= i < s.len(),
    ensures
        #[trigger] mutp_view(s.update(i, v)) =~= mutp_view(s).update(i, iv_view(v@)),
{
    broadcast use mutp_view_len, mutp_view_index;

}

pub broadcast group group_mutp_axioms {
    mutp_view_len,
    mutp_view_index,
    mutp_view_update,
}

/// The views of a row of argument facts.
pub open spec fn af_view(s: Seq<ArgFact>) -> Seq<ArgFactV> {
    s.map_values(|a: ArgFact| a@)
}

pub broadcast proof fn af_view_len(s: Seq<ArgFact>)
    ensures
        #[trigger] af_view(s).len() == s.len(),
{
}

pub broadcast proof fn af_view_index(s: Seq<ArgFact>, i: int)
    requires
        0 <= i < s.len(),
    ensures
        #[trigger] af_view(s)[i] == s[i]@,
{
}

pub broadcast group group_af_axioms {
    af_view_len,
    af_view_index,
}

/// The views of one function's call sites.
pub open spec fn cs_view(s: Seq<(String, Vec<ArgFact>)>) -> Seq<(Seq<char>, Seq<ArgFactV>)> {
    s.map_values(|c: (String, Vec<ArgFact>)| (c.0@, af_view(c.1@)))
}

pub broadcast proof fn cs_view_len(s: Seq<(String, Vec<ArgFact>)>)
    ensures
        #[trigger] cs_view(s).len() == s.len(),
{
}

pub broadcast proof fn cs_view_index(s: Seq<(String, Vec<ArgFact>)>, i: int)
    requires
        0 <= i < s.len(),
    ensures
        #[trigger] cs_view(s)[i] == (s[i].0@, af_view(s[i].1@)),
{
}

pub broadcast group group_cs_axioms {
    cs_view_len,
    cs_view_index,
}

/// The views of all functions' call sites.
pub open spec fn css_view(s: Seq<Vec<(String, Vec<ArgFact>)>>) -> Seq<
    Seq<(Seq<char>, Seq<ArgFactV>)>,
> {
    s.map_values(|v: Vec<(String, Vec<ArgFact>)>| cs_view(v@))
}

pub broadcast proof fn css_view_len(s: Seq<Vec<(String, Vec<ArgFact>)>>)
    ensures
        #[trigger] css_view(s).len() == s.len(),
{
}

pub broadcast proof fn css_view_index(s: Seq<Vec<(String, Vec<ArgFact>)>>, i: int)
    requires
        0 <= i < s.len(),
    ensures
        #[trigger] css_view(s)[i] == cs_view(s[i]@),
{
}

pub broadcast group group_css_axioms {
    css_view_len,
    css_view_index,
}

/// The views of all functions' storage-parameter rows.
pub open spec fn sprows_view(s: Seq<Vec<StorageParamInfo>>) -> Seq<Seq<(int, Seq<char>)>> {
    s.map_values(|v: Vec<StorageParamInfo>| crate::analyzer::sp_view(v@))
}

pub broadcast proof fn sprows_view_len(s: Seq<Vec<StorageParamInfo>>)
    ensures
        #[trigger] sprows_view(s).len() == s.len(),
{
}

pub broadcast proof fn sprows_view_index(s: Seq<Vec<StorageParamInfo>>, i: int)
    requires
        0 <= i < s.len(),
    ensures
        #[trigger] sprows_view(s)[i] == crate::analyzer::sp_view(s[i]@),
{
}

pub broadcast group group_sprows_axioms {
    sprows_view_len,
    sprows_view_index,
}

/// The first position at which a name occurs.
pub open spec fn index_of_name(names: Seq<Seq<char>>, x: Seq<char>, i: int) -> Option<int>
    decreases names.len() - i,
{
    if i < 0 || i >= names.len() {
        None
    } else if names[i] == x {
        Some(i)
    } else {
        index_of_name(names, x, i + 1)
    }
}

/// Find the first function with the given name.
pub fn find_name_index(names: &Vec<String>, x: &String) -> (r: Option<usize>)
    ensures
        match r {
            Some(i) => index_of_name(names_of(names@), x@, 0) == Some(i as int),
            None => index_of_name(names_of(names@), x@, 0) is None,
        },
{
    let mut i: usize = 0;
    while i < names.len()
        invariant
            i <= names.len(),
            index_of_name(names_of(names@), x@, 0) == index_of_name(
                names_of(names@),
                x@,
                i as int,
            ),
        decreases names.len() - i,
    {
        if names[i].eq(x) {
            assert(names_of(names@)[i as int] == x@);
            return Some(i);
        }
        assert(names_of(names@)[i as int] != x@);
        i += 1;
    }
    None
}

/// The propagation state: per function, the mutated state variables and the
/// mutated storage-parameter positions.
pub struct PropStateV {
    pub mods: Seq<Seq<Seq<char>>>,
    pub mutp: Seq<Seq<int>>,
}

/// Apply one storage parameter of one call site: when the callee mutates that
/// parameter, the caller gains whatever it passed there.
pub open spec fn prop_one_param(
    st: PropStateV,
    f: int,
    call: (Seq<char>, Seq<ArgFactV>),
    ci: int,
    sp: (int, Seq<char>),
) -> PropStateV {
    if 0 <= ci < st.mutp.len() && 0 <= f < st.mods.len() && f < st.mutp.len() && 0 <= sp.0
        < call.1.len() && st.mutp[ci].contains(sp.0) {
        match call.1[sp.0] {
            ArgFactV::State(sv) => PropStateV {
                mods: st.mods.update(f, push_unique_spec(st.mods[f], sv)),
                mutp: st.mutp,
            },
            ArgFactV::OwnParam(p) => PropStateV {
                mods: st.mods,
                mutp: st.mutp.update(f, push_unique_int_spec(st.mutp[f], p)),
            },
            ArgFactV::Unknown => st,
        }
    } else {
        st
    }
}

/// Fold one call site's storage parameters.
pub open spec fn prop_params(
    st: PropStateV,
    f: int,
    call: (Seq<char>, Seq<ArgFactV>),
    ci: int,
    sps: Seq<(int, Seq<char>)>,
    p: int,
) -> PropStateV
    decreases sps.len() - p,
{
    if p < 0 || p >= sps.len() {
        st
    } else {
        prop_params(prop_one_param(st, f, call, ci, sps[p]), f, call, ci, sps, p + 1)
    }
}

/// Apply one call site: resolve the callee by name and fold its storage
/// parameters.
pub open spec fn prop_one_call(
    st: PropStateV,
    names: Seq<Seq<char>>,
    sprows: Seq<Seq<(int, Seq<char>)>>,
    f: int,
    call: (Seq<char>, Seq<ArgFactV>),
) -> PropStateV {
    match index_of_name(names, call.0, 0) {
        Some(ci) => if 0 <= ci < sprows.len() {
            prop_params(st, f, call, ci, sprows[ci], 0)
        } else {
            st
        },
        None => st,
    }
}

/// Fold one function's call sites.
pub open spec fn prop_calls(
    st: PropStateV,
    names: Seq<Seq<char>>,
    sprows: Seq<Seq<(int, Seq<char>)>>,
    f: int,
    calls: Seq<(Seq<char>, Seq<ArgFactV>)>,
    c: int,
) -> PropStateV
    decreases calls.len() - c,
{
    if c < 0 || c >= calls.len() {
        st
    } else {
        prop_calls(
            prop_one_call(st, names, sprows, f, calls[c]),
            names,
            sprows,
            f,
            calls,
            c + 1,
        )
    }
}

/// Fold all functions once.
pub open spec fn prop_round(
    st: PropStateV,
    names: Seq<Seq<char>>,
    sprows: Seq<Seq<(int, Seq<char>)>>,
    css: Seq<Seq<(Seq<char>, Seq<ArgFactV>)>>,
    f: int,
) -> PropStateV
    decreases css.len() - f,
{
    if f < 0 || f >= css.len() {
        st
    } else {
        prop_round(
            prop_calls(st, names, sprows, f, css[f], 0),
            names,
            sprows,
            css,
            f + 1,
        )
    }
}

/// Run the given number of rounds.
pub open spec fn prop_iter(
    st: PropStateV,
    names: Seq<Seq<char>>,
    sprows: Seq<Seq<(int, Seq<char>)>>,
    css: Seq<Seq<(Seq<char>, Seq<ArgFactV>)>>,
    k: nat,
) -> PropStateV
    decreases k,
{
    if k == 0 {
        st
    } else {
        prop_iter(prop_round(st, names, sprows, css, 0), names, sprows, css, (k - 1) as nat)
    }
}

/// Folding one call site's parameters keeps the number of functions.
pub proof fn lemma_params_len(
    st: PropStateV,
    f: int,
    call: (Seq<char>, Seq<ArgFactV>),
    ci: int,
    sps: Seq<(int, Seq<char>)>,
    p: int,
)
    ensures
        prop_params(st, f, call, ci, sps, p).mods.len() == st.mods.len(),
        prop_params(st, f, call, ci, sps, p).mutp.len() == st.mutp.len(),
    decreases sps.len() - p,
{
    if !(p < 0 || p >= sps.len()) {
        lemma_params_len(prop_one_param(st, f, call, ci, sps[p]), f, call, ci, sps, p + 1);
    }
}

/// Folding one function's call sites keeps the number of functions.
pub proof fn lemma_calls_len(
    st: PropStateV,
    names: Seq<Seq<char>>,
    sprows: Seq<Seq<(int, Seq<char>)>>,
    f: int,
    calls: Seq<(Seq<char>, Seq<ArgFactV>)>,
    c: int,
)
    ensures
        prop_calls(st, names, sprows, f, calls, c).mods.len() == st.mods.len(),
        prop_calls(st, names, sprows, f, calls, c).mutp.len() == st.mutp.len(),
    decreases calls.len() - c,
{
    if !(c < 0 || c >= calls.len()) {
        let st1 = prop_one_call(st, names, sprows, f, calls[c]);
        assert(st1.mods.len() == st.mods.len() && st1.mutp.len() == st.mutp.len()) by {
            match index_of_name(names, calls[c].0, 0) {
                Some(ci) => {
                    if 0 <= ci < sprows.len() {
                        lemma_params_len(st, f, calls[c], ci, sprows[ci], 0);
                    }
                },
                None => {},
            }
        }
        lemma_calls_len(st1, names, sprows, f, calls, c + 1);
    }
}

/// One round keeps the number of functions.
pub proof fn lemma_round_len(
    st: PropStateV,
    names: Seq<Seq<char>>,
    sprows: Seq<Seq<(int, Seq<char>)>>,
    css: Seq<Seq<(Seq<char>, Seq<ArgFactV>)>>,
    f: int,
)
    ensures
        prop_round(st, names, sprows, css, f).mods.len() == st.mods.len(),
        prop_round(st, names, sprows, css, f).mutp.len() == st.mutp.len(),
    decreases css.len() - f,
{
    if !(f < 0 || f >= css.len()) {
        lemma_calls_len(st, names, sprows, f, css[f], 0);
        lemma_round_len(prop_calls(st, names, sprows, f, css[f], 0), names, sprows, css, f + 1);
    }
}

/// Any number of rounds keeps the number of functions.
pub proof fn lemma_iter_len(
    st: PropStateV,
    names: Seq<Seq<char>>,
    sprows: Seq<Seq<(int, Seq<char>)>>,
    css: Seq<Seq<(Seq<char>, Seq<ArgFactV>)>>,
    k: nat,
)
    ensures
        prop_iter(st, names, sprows, css, k).mods.len() == st.mods.len(),
        prop_iter(st, names, sprows, css, k).mutp.len() == st.mutp.len(),
    decreases k,
{
    if k > 0 {
        lemma_round_len(st, names, sprows, css, 0);
        lemma_iter_len(prop_round(st, names, sprows, css, 0), names, sprows, css, (k - 1) as nat);
    }
}

/// A round that adds nothing keeps adding nothing: the fixed point, once
/// reached, is stable for any number of further rounds. The bounded round cap
/// therefore computes the same result an early-exit loop would.
pub proof fn lemma_prop_stable(
    st: PropStateV,
    names: Seq<Seq<char>>,
    sprows: Seq<Seq<(int, Seq<char>)>>,
    css: Seq<Seq<(Seq<char>, Seq<ArgFactV>)>>,
    k: nat,
)
    requires
        prop_round(st, names, sprows, css, 0) == st,
    ensures
        prop_iter(st, names, sprows, css, k) == st,
    decreases k,
{
    if k > 0 {
        lemma_prop_stable(st, names, sprows, css, (k - 1) as nat);
    }
}

/// Run the propagation rounds over the given facts: `mods` and `mutp` are
/// each function's directly mutated state variables and storage-parameter
/// positions; `names` the function names; `css` each function's call sites
/// with their arguments resolved; `sprows` each function's storage
/// parameters.
pub fn run_propagation(
    mods: Vec<Vec<String>>,
    mutp: Vec<Vec<usize>>,
    names: &Vec<String>,
    css: &Vec<Vec<(String, Vec<ArgFact>)>>,
    sprows: &Vec<Vec<StorageParamInfo>>,
) -> (r: (Vec<Vec<String>>, Vec<Vec<usize>>))
    requires
        mods@.len() == css@.len(),
        mutp@.len() == css@.len(),
    ensures
        (mods_view(r.0@), mutp_view(r.1@)) == {
            let fin = prop_iter(
                PropStateV { mods: mods_view(mods@), mutp: mutp_view(mutp@) },
                names_of(names@),
                sprows_view(sprows@),
                css_view(css@),
                MAX_PROPAGATION_ROUNDS as nat,
            );
            (fin.mods, fin.mutp)
        },
{
    broadcast use
        group_mods_axioms,
        group_mutp_axioms,
        group_cs_axioms,
        group_css_axioms,
        group_sprows_axioms,
        group_af_axioms,
        crate::analyzer::group_sp_axioms,
    ;

    let ghost nv = names_of(names@);
    let ghost spv = sprows_view(sprows@);
    let ghost cssv = css_view(css@);
    let mut mods = mods;
    let mut mutp = mutp;
    let ghost st0 = PropStateV { mods: mods_view(mods@), mutp: mutp_view(mutp@) };
    let n = css.len();
    let mut round: usize = 0;
    while round < MAX_PROPAGATION_ROUNDS
        invariant
            round <= MAX_PROPAGATION_ROUNDS,
            n == css@.len(),
            mods@.len() == n,
            mutp@.len() == n,
            nv == names_of(names@),
            spv == sprows_view(sprows@),
            cssv == css_view(css@),
            prop_iter(
                PropStateV { mods: mods_view(mods@), mutp: mutp_view(mutp@) },
                nv,
                spv,
                cssv,
                (MAX_PROPAGATION_ROUNDS - round) as nat,
            ) == prop_iter(st0, nv, spv, cssv, MAX_PROPAGATION_ROUNDS as nat),
        decreases MAX_PROPAGATION_ROUNDS - round,
    {
        let ghost round_start = PropStateV { mods: mods_view(mods@), mutp: mutp_view(mutp@) };
        let mut f: usize = 0;
        while f < n
            invariant
                f <= n,
                n == css@.len(),
                mods@.len() == n,
                mutp@.len() == n,
                nv == names_of(names@),
                spv == sprows_view(sprows@),
                cssv == css_view(css@),
                prop_round(
                    PropStateV { mods: mods_view(mods@), mutp: mutp_view(mutp@) },
                    nv,
                    spv,
                    cssv,
                    f as int,
                ) == prop_round(round_start, nv, spv, cssv, 0),
            decreases n - f,
        {
            let ghost f_start = PropStateV { mods: mods_view(mods@), mutp: mutp_view(mutp@) };
            let ncalls = css[f].len();
            let mut c: usize = 0;
            while c < ncalls
                invariant
                    c <= ncalls,
                    f < n,
                    n == css@.len(),
                    ncalls == css@[f as int]@.len(),
                    mods@.len() == n,
                    mutp@.len() == n,
                    nv == names_of(names@),
                    spv == sprows_view(sprows@),
                    cssv == css_view(css@),
                    prop_calls(
                        PropStateV { mods: mods_view(mods@), mutp: mutp_view(mutp@) },
                        nv,
                        spv,
                        f as int,
                        cssv[f as int],
                        c as int,
                    ) == prop_calls(f_start, nv, spv, f as int, cssv[f as int], 0),
                decreases ncalls - c,
            {
                let ghost c_start = PropStateV { mods: mods_view(mods@), mutp: mutp_view(mutp@) };
                let ghost callv = cssv[f as int][c as int];
                assert(callv == (css@[f as int]@[c as int].0@, af_view(
                    css@[f as int]@[c as int].1@,
                )));
                let callee_opt = find_name_index(names, &css[f][c].0);
                if let Some(ci) = callee_opt {
                    if ci < sprows.len() {
                        let nparams = sprows[ci].len();
                        let mut p: usize = 0;
                        while p < nparams
                            invariant
                                p <= nparams,
                                f < n,
                                c < ncalls,
                                ncalls == css@[f as int]@.len(),
                                ci < sprows@.len(),
                                n == css@.len(),
                                nparams == sprows@[ci as int]@.len(),
                                mods@.len() == n,
                                mutp@.len() == n,
                                nv == names_of(names@),
                                spv == sprows_view(sprows@),
                                cssv == css_view(css@),
                                callv == cssv[f as int][c as int],
                                callv.1 == af_view(css@[f as int]@[c as int].1@),
                                prop_params(
                                    PropStateV {
                                        mods: mods_view(mods@),
                                        mutp: mutp_view(mutp@),
                                    },
                                    f as int,
                                    callv,
                                    ci as int,
                                    spv[ci as int],
                                    p as int,
                                ) == prop_params(c_start, f as int, callv, ci as int, spv[ci as int], 0),
                            decreases nparams - p,
                        {
                            let ghost pre = PropStateV {
                                mods: mods_view(mods@),
                                mutp: mutp_view(mutp@),
                            };
                            let idx = sprows[ci][p].param_index;
                            assert(spv[ci as int][p as int] == (idx as int, sprows@[ci as int]@[p as int].param_name@));
                            let arglen = css[f][c].1.len();
                            if idx < arglen && ci < n && contains_pos(&mutp[ci], idx) {
                                assert(callv.1[idx as int] == css@[f as int]@[c as int].1@[idx as int]@);
                                match &css[f][c].1[idx] {
                                    ArgFact::State(sv) => {
                                        let mut row = mods.remove(f);
                                        push_unique(&mut row, sv.clone());
                                        mods.insert(f, row);
                                        assert(mods_view(mods@) =~= pre.mods.update(
                                            f as int,
                                            push_unique_spec(pre.mods[f as int], sv@),
                                        ));
                                    },
                                    ArgFact::OwnParam(pp) => {
                                        let mut row = mutp.remove(f);
                                        push_unique_pos(&mut row, *pp);
                                        mutp.insert(f, row);
                                        assert(mutp_view(mutp@) =~= pre.mutp.update(
                                            f as int,
                                            push_unique_int_spec(pre.mutp[f as int], *pp as int),
                                        ));
                                    },
                                    ArgFact::Unknown => {},
                                }
                            }
                            assert(PropStateV { mods: mods_view(mods@), mutp: mutp_view(mutp@) }
                                == prop_one_param(pre, f as int, callv, ci as int, spv[ci as int][p as int]));
                            p += 1;
                        }
                    }
                }
                c += 1;
            }
            f += 1;
        }
        round += 1;
    }
    assert(prop_iter(
        PropStateV { mods: mods_view(mods@), mutp: mutp_view(mutp@) },
        nv,
        spv,
        cssv,
        0,
    ) == PropStateV { mods: mods_view(mods@), mutp: mutp_view(mutp@) });
    (mods, mutp)
}

} // verus!
