//! Stopping instances.

use crate::error::NotFoundError;
use crate::manager::AppContext;
use crate::manager::SsInstance;
use vstd::prelude::*;

verus! {

/// `kill`: stop every instance, or those with a given id.
#[derive(Debug)]
pub struct Kill {
    /// Stop every instance.
    pub all: bool,
    /// Stop the instances with this id.
    pub id: Option<usize>,
}

/// Whether `inst` runs under `id`.
pub open spec fn has_id<H>(id: usize) -> spec_fn(SsInstance<H>) -> bool {
    |inst: SsInstance<H>| inst.id == id
}

/// Whether `inst` runs under another id than `id`.
pub open spec fn has_other_id<H>(id: usize) -> spec_fn(SsInstance<H>) -> bool {
    |inst: SsInstance<H>| inst.id != id
}

/// Whether some instance in `insts` runs under `id`.
pub open spec fn is_running<H>(insts: Seq<SsInstance<H>>, id: usize) -> bool {
    exists|k: int| 0 <= k < insts.len() && (#[trigger] insts[k]).id == id
}

/// The handles of an instance: the primary process, then the secondary one
/// if there is one.
pub open spec fn pair_of<H>(inst: SsInstance<H>) -> Seq<H> {
    match inst.kcp {
        Some(kcp) => seq![inst.ss, kcp],
        None => seq![inst.ss],
    }
}

/// The handles of the first `n` of `insts`, instance after instance.
pub open spec fn handles_upto<H>(insts: Seq<SsInstance<H>>, n: int) -> Seq<H>
    decreases n,
{
    if n <= 0 {
        Seq::empty()
    } else {
        handles_upto(insts, n - 1) + pair_of(insts[n - 1])
    }
}

/// The first failure among `outcomes` from `k` on, if there is one.
pub open spec fn first_failure<E>(outcomes: Seq<Result<(), E>>, k: int) -> Option<E>
    decreases outcomes.len() - k,
{
    if k < 0 || k >= outcomes.len() {
        None
    } else {
        match outcomes[k] {
            Err(e) => Some(e),
            Ok(_) => first_failure(outcomes, k + 1),
        }
    }
}

/// The handles to which a stop request goes when `insts` leave the
/// registry: every handle once, instance after instance, the primary
/// process of each before its secondary one.
pub fn handles<H>(insts: Vec<SsInstance<H>>) -> (hs: Vec<H>)
    ensures
        hs@ == handles_upto(insts@, insts@.len() as int),
{
    let ghost all = insts@;
    let mut hs: Vec<H> = Vec::new();
    for inst in it: insts
        invariant
            it.seq() == all,
            hs@ == handles_upto(all, it.index()),
    {
        let SsInstance { id, ss, kcp } = inst;
        hs.push(ss);
        match kcp {
            Some(h) => {
                hs.push(h);
            },
            None => {},
        }
    }
    hs
}

/// What is reported after the stop requests came back with `outcomes`: the
/// first failure, or nothing if none failed. Every request has been made
/// by then, whatever the earlier ones came to.
pub fn first_error<E>(outcomes: Vec<Result<(), E>>) -> (r: Option<E>)
    ensures
        r == first_failure(outcomes@, 0),
{
    let ghost all = outcomes@;
    let mut first: Option<E> = None;
    for outcome in it: outcomes
        invariant
            it.seq() == all,
            match first {
                Some(e) => first_failure(all, 0) == Some(e),
                None => first_failure(all, 0) == first_failure(all, it.index()),
            },
    {
        if first.is_none() {
            match outcome {
                Err(e) => {
                    first = Some(e);
                },
                Ok(_) => {},
            }
        }
    }
    first
}

impl Kill {
    /// Takes the targeted instances out of the registry and hands them to
    /// the caller, who stops both processes of each.
    ///
    /// With `all`, every instance leaves and the registry is empty. With an
    /// id, the instances under that id leave, in registry order, and the
    /// others stay in their order; if none runs under it, nothing changes
    /// and the id is reported. With neither, nothing happens. The profiles
    /// are never touched.
    pub fn invoke_cmd<H>(&self, ctx: &mut AppContext<H>) -> (r: Result<
        Vec<SsInstance<H>>,
        NotFoundError,
    >)
        ensures
            final(ctx).cfgs == old(ctx).cfgs,
            self.all ==> r is Ok && r->Ok_0@ == old(ctx).insts@ && final(ctx).insts@.len() == 0,
            !self.all && self.id is None ==> r is Ok && r->Ok_0@.len() == 0 && final(ctx).insts
                == old(ctx).insts,
            !self.all && self.id is Some && is_running(old(ctx).insts@, self.id->0) ==> r is Ok
                && r->Ok_0@ == old(ctx).insts@.filter(has_id(self.id->0)) && final(ctx).insts@
                == old(ctx).insts@.filter(has_other_id(self.id->0)) && !is_running(
                final(ctx).insts@,
                self.id->0,
            ),
            !self.all && self.id is Some && !is_running(old(ctx).insts@, self.id->0) ==> r is Err
                && r->Err_0.id == self.id->0 && final(ctx).insts == old(ctx).insts,
    {
        if self.all {
            let mut gone: Vec<SsInstance<H>> = Vec::new();
            std::mem::swap(&mut ctx.insts, &mut gone);
            return Ok(gone);
        }
        let id = match self.id {
            Some(id) => id,
            None => {
                return Ok(Vec::new());
            },
        };
        if !Self::runs(&ctx.insts, id) {
            return Err(NotFoundError { id });
        }
        let mut all: Vec<SsInstance<H>> = Vec::new();
        std::mem::swap(&mut ctx.insts, &mut all);
        let ghost before = all@;
        let mut gone: Vec<SsInstance<H>> = Vec::new();
        for inst in it: all
            invariant
                it.seq() == before,
                ctx.cfgs == old(ctx).cfgs,
                gone@ == before.take(it.index()).filter(has_id(id)),
                ctx.insts@ == before.take(it.index()).filter(has_other_id(id)),
        {
            proof {
                let k = it.index();
                assert(before.take(k + 1).drop_last() =~= before.take(k));
                reveal(Seq::filter);
            }
            if inst.id == id {
                gone.push(inst);
            } else {
                ctx.insts.push(inst);
            }
        }
        assert(before.take(before.len() as int) =~= before);
        assert(!is_running(ctx.insts@, id)) by {
            assert forall|k: int| 0 <= k < ctx.insts@.len() implies (#[trigger] ctx.insts@[k]).id
                != id by {
                before.lemma_filter_pred(has_other_id(id), k);
            }
        }
        Ok(gone)
    }

    /// Whether some instance in `insts` runs under `id`.
    fn runs<H>(insts: &Vec<SsInstance<H>>, id: usize) -> (b: bool)
        ensures
            b == is_running(insts@, id),
    {
        let n = insts.len();
        let mut k: usize = 0;
        while k < n
            invariant
                k <= n,
                n == insts@.len(),
                forall|j: int| 0 <= j < k ==> (#[trigger] insts@[j]).id != id,
            decreases n - k,
        {
            if insts[k].id == id {
                return true;
            }
            k += 1;
        }
        false
    }
}

} // verus!
