use vstd::prelude::*;

use crate::broadcast::{LiveStream, OAuthResponse, ResponseList};

verus! {

/// What survives between runs: the last credential and the last live-set that was notified on.
#[derive(Clone, Debug)]
pub struct State {
    pub auth: Option<OAuthResponse>,
    pub lives: Option<ResponseList<LiveStream>>,
}

/// `id` is the id of some broadcast in `l`.
pub open spec fn seen(l: Seq<LiveStream>, id: Seq<char>) -> bool {
    exists|i: int| 0 <= i < l.len() && (#[trigger] l[i]).id@ == id
}

/// Holds of a broadcast whose id is not among those of `l`.
pub open spec fn new_in(l: Seq<LiveStream>) -> spec_fn(LiveStream) -> bool {
    |s: LiveStream| !seen(l, s.id@)
}

/// The broadcasts of `f`, in order, whose id is not among those of `l`.
pub open spec fn unseen(l: Seq<LiveStream>, f: Seq<LiveStream>) -> Seq<LiveStream> {
    f.filter(new_in(l))
}

/// The last live-set of a persisted state, as a sequence.
pub open spec fn last_set(st: Option<State>) -> Option<Seq<LiveStream>> {
    match st {
        Some(s) => match s.lives {
            Some(l) => Some(l.data@),
            None => None,
        },
        None => None,
    }
}

/// The genuinely new broadcasts of a fresh fetch `f`: all of it when there is no last-set.
pub open spec fn fresh_only(last: Option<Seq<LiveStream>>, f: Seq<LiveStream>) -> Seq<LiveStream> {
    match last {
        Some(l) => unseen(l, f),
        None => f,
    }
}

/// Whether some broadcast of `l` has the id `id`.
pub fn has_id(l: &Vec<LiveStream>, id: &String) -> (r: bool)
    ensures
        r == seen(l@, id@),
{
    let mut i: usize = 0;
    while i < l.len()
        invariant
            i <= l@.len(),
            forall|j: int| 0 <= j < i ==> (#[trigger] l@[j]).id@ != id@,
        decreases l@.len() - i,
    {
        if l[i].id == *id {
            return true;
        }
        i = i + 1;
    }
    false
}

/// The broadcasts of `f`, in order, whose id no broadcast of `l` has.
pub fn without_seen(l: &Vec<LiveStream>, f: &Vec<LiveStream>) -> (r: Vec<LiveStream>)
    ensures
        r@ == unseen(l@, f@),
{
    broadcast use vstd::seq_lib::group_seq_properties;

    let mut out: Vec<LiveStream> = Vec::new();
    let mut i: usize = 0;
    while i < f.len()
        invariant
            i <= f@.len(),
            out@ == unseen(l@, f@.subrange(0, i as int)),
        decreases f@.len() - i,
    {
        let ghost pre = f@.subrange(0, i as int);
        assert(f@.subrange(0, i as int + 1) =~= pre.push(f@[i as int]));
        proof { pre.lemma_filter_push(f@[i as int], new_in(l@)); }
        if !has_id(l, &f[i].id) {
            out.push(f[i].duplicate());
        }
        i = i + 1;
    }
    assert(f@.subrange(0, f@.len() as int) =~= f@);
    out
}

impl State {
    /// Removes from `stream_list` every broadcast whose id is in this state's last live-set;
    /// without a last live-set the list stays as it is.
    pub fn trim(&self, stream_list: &mut ResponseList<LiveStream>)
        ensures
            final(stream_list).data@ == fresh_only(last_set(Some(*self)), old(stream_list).data@),
    {
        match &self.lives {
            Some(lives) => {
                let kept = without_seen(&lives.data, &stream_list.data);
                stream_list.data = kept;
            },
            None => {},
        }
    }
}

/// The broadcasts of `fresh` to notify on, given the state of the previous run, if any.
pub fn diff_new(prior: &Option<State>, fresh: &mut ResponseList<LiveStream>)
    ensures
        final(fresh).data@ == fresh_only(last_set(*prior), old(fresh).data@),
{
    match prior {
        Some(st) => st.trim(fresh),
        None => {},
    }
}

/// With a last live-set `l`, a broadcast of the fresh fetch `f` is kept exactly when its id
/// is not in `l`, the kept ones stay in their order, and no kept id is one of `l`.
pub proof fn lemma_diff_removes_seen(l: Seq<LiveStream>, f: Seq<LiveStream>)
    ensures
        fresh_only(Some(l), f) == f.filter(new_in(l)),
        forall|i: int|
            0 <= i < fresh_only(Some(l), f).len() ==> !seen(l, (#[trigger] fresh_only(Some(l), f)[i]).id@),
        forall|s: LiveStream| #[trigger] fresh_only(Some(l), f).contains(s) <==> (f.contains(s) && !seen(l, s.id@)),
{
    broadcast use vstd::seq_lib::group_filter_ensures;

    let pred = new_in(l);
    let r = f.filter(pred);
    assert forall|s: LiveStream| #[trigger] r.contains(s) <==> (f.contains(s) && !seen(l, s.id@)) by {
        if r.contains(s) {
            f.lemma_filter_contains_rev(pred, s);
            let k = choose|k: int| 0 <= k < r.len() && r[k] == s;
            f.lemma_filter_pred(pred, k);
        }
        if f.contains(s) && pred(s) {
            let k = choose|k: int| 0 <= k < f.len() && f[k] == s;
            f.lemma_filter_contains(pred, k);
        }
    }
}

/// Without a previous state nothing is filtered out.
pub proof fn lemma_diff_identity_without_state(f: Seq<LiveStream>)
    ensures
        fresh_only(last_set(None), f) == f,
{
}

} // verus!
