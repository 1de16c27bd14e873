//! Applying a batch of out-of-bounds mutations to a module.
use vstd::prelude::*;
use crate::bounds::{
    is_edge, pointer_dst, spec_pointers_from,
    spec_valid_pointer_srcs, valid_pointer_srcs, OutOfBoundsMutation, PointerKind, OFFSET_BOUND,
};
use crate::file_format::{
    lemma_with_struct_handle, token_struct_handle, token_with_struct_handle, CompiledModule,
    FunctionSignature, ModuleView, SignatureToken, StructFieldInformation, TableIndex, VMStaticViolation,
    VerificationError,
};
use crate::index_kind::IndexKind;
use crate::model::{
    in_pairs, lemma_pairs_count_step, all_native, lemma_native_group_skipped, lemma_set_index_keeps_structs, all_declared, src_population, edge_position, lemma_apply_pairs_single, lemma_edge_listed, lemma_edge_position,
    lemma_filter_all, edge_pairs_of, in_pair, lemma_edge_pair_is_edge, spec_apply_pairs, spec_edge_pairs,
    caches_valid, fn_token_valid, function_structs, is_range_pair, lemma_apply_group_diagnostics,
    lemma_edge_is_handled, lemma_set_index_keeps_inv, locals_structs, reports_out_of_bounds,
    sig_structs, spec_apply_group, spec_set_index, struct_positions, FunctionSignatureTokenIndex,
};
use crate::pick::pick_slice_idxs;
use proptest::sample::Index;

verus! {

/// Every edge of the pointer model, source by source, in the model's order.
fn edge_pairs() -> (r: Vec<(IndexKind, IndexKind)>)
    ensures
        r@ == spec_edge_pairs(),
{
    let mut r: Vec<(IndexKind, IndexKind)> = Vec::new();
    let srcs = valid_pointer_srcs();
    let mut i: usize = 0;
    while i < srcs.len()
        invariant
            srcs@ == spec_valid_pointer_srcs(),
            i <= srcs@.len(),
            r@ == edge_pairs_of(srcs@.take(i as int)),
        decreases srcs@.len() - i,
    {
        let pointers = PointerKind::pointers_from(srcs[i]);
        let ghost before = r@;
        let mut p: usize = 0;
        while p < pointers.len()
            invariant
                pointers@ == spec_pointers_from(srcs@[i as int]),
                i < srcs@.len(),
                p <= pointers@.len(),
                r@ == before + pointers@.take(p as int).map_values(
                    |q: PointerKind| (srcs@[i as int], pointer_dst(q)),
                ),
            decreases pointers@.len() - p,
        {
            r.push((srcs[i], pointers[p].to_index_kind()));
            assert(pointers@.take(p + 1) =~= pointers@.take(p as int).push(pointers@[p as int]));
            p += 1;
        }
        assert(pointers@.take(p as int) =~= pointers@);
        assert(srcs@.take(i + 1).drop_last() =~= srcs@.take(i as int));
        i += 1;
    }
    assert(srcs@.take(i as int) =~= srcs@);
    assert(edge_pairs_of(srcs@) =~= spec_edge_pairs()) by {
        reveal_with_fuel(edge_pairs_of, 10);
    }
    r
}

/// The mutations of the pair (`src`, `dst`), in the order of the batch.
fn filter_pair(mutations: &Vec<OutOfBoundsMutation>, src: IndexKind, dst: IndexKind) -> (r: Vec<
    OutOfBoundsMutation,
>)
    ensures
        r@ == mutations@.filter(in_pair(src, dst)),
{
    let mut r: Vec<OutOfBoundsMutation> = Vec::new();
    let mut i: usize = 0;
    while i < mutations.len()
        invariant
            i <= mutations@.len(),
            r@ == mutations@.take(i as int).filter(in_pair(src, dst)),
        decreases mutations@.len() - i,
    {
        let m = mutations[i];
        let ghost pre = mutations@.take(i as int);
        let ghost next = mutations@.take(i + 1);
        assert(next.drop_last() =~= pre);
        assert(next.last() == m);
        proof {
            reveal_with_fuel(Seq::filter, 1);
        }
        if m.src_kind == src && m.dst_kind == dst {
            r.push(m);
        }
        assert(r@ == next.filter(in_pair(src, dst)));
        i += 1;
    }
    assert(mutations@.take(i as int) =~= mutations@);
    r
}

/// Applies a batch of out-of-bounds mutations to a module, and predicts the
/// diagnostics that a bounds checker must report for them.
pub struct ApplyOutOfBoundsContext {
    pub module: CompiledModule,
    pub mutations: Vec<OutOfBoundsMutation>,
    /// The type signatures that refer to a struct.
    pub type_sig_structs: Vec<usize>,
    /// The function signature tokens that refer to a struct.
    pub function_sig_structs: Vec<FunctionSignatureTokenIndex>,
    /// The locals signature tokens that refer to a struct.
    pub locals_sig_structs: Vec<(usize, usize)>,
}

impl ApplyOutOfBoundsContext {
    /// The module is well formed, and the caches list exactly the signature tokens
    /// that refer to a struct.
    pub open spec fn inv(&self) -> bool {
        &&& self.module@.well_formed()
        &&& self.type_sig_structs@ == struct_positions(self.module@.type_signatures)
        &&& self.function_sig_structs@ == function_structs(self.module@.function_signatures)
        &&& self.locals_sig_structs@ == locals_structs(self.module@.locals_signatures)
        &&& caches_valid(
            self.module@,
            self.type_sig_structs@,
            self.function_sig_structs@,
            self.locals_sig_structs@,
        )
    }

    /// How many nodes of kind `k` can have a pointer corrupted: for signatures, those
    /// that refer to a struct; for other kinds, every entry of the table.
    pub open spec fn src_count(&self, k: IndexKind) -> nat {
        src_population(
            self.module@,
            self.type_sig_structs@,
            self.function_sig_structs@,
            self.locals_sig_structs@,
            k,
        )
    }

    /// The batch is not empty and all its mutations share one pair.
    pub open spec fn single_pair(&self) -> bool {
        &&& self.mutations@.len() > 0
        &&& forall|k: int|
            0 <= k < self.mutations@.len() ==> (#[trigger] self.mutations@[k]).src_kind
                == self.mutations@[0].src_kind && self.mutations@[k].dst_kind
                == self.mutations@[0].dst_kind
    }

    /// `p` is a valid choice of nodes for the `n`-th pair of the pointer model: as
    /// many distinct corruptible nodes as that pair has mutations, or every node where
    /// there are fewer.
    pub open spec fn pick_fits(&self, p: Seq<usize>, n: int) -> bool {
        let (s, d) = spec_edge_pairs()[n];
        let g = self.mutations@.filter(in_pair(s, d)).len();
        &&& p.len() == if g < self.src_count(s) {
            g
        } else {
            self.src_count(s)
        }
        &&& p.no_duplicates()
        &&& forall|k: int| 0 <= k < p.len() ==> #[trigger] p[k] < self.src_count(s)
    }

    /// One valid choice of nodes for each pair of the pointer model.
    pub open spec fn valid_picks(&self, picks: Seq<Seq<usize>>) -> bool {
        &&& picks.len() == spec_edge_pairs().len()
        &&& forall|n: int| 0 <= n < picks.len() ==> self.pick_fits(#[trigger] picks[n], n)
    }

    /// What `set_index` does, over this context's module and caches.
    pub open spec fn set_index_result(
        &self,
        src: IndexKind,
        i: int,
        dst: IndexKind,
        dst_count: usize,
        new_idx: TableIndex,
    ) -> (ModuleView, Option<VerificationError>) {
        spec_set_index(
            self.module@,
            self.type_sig_structs@,
            self.function_sig_structs@,
            self.locals_sig_structs@,
            src,
            i,
            dst,
            dst_count,
            new_idx,
        )
    }

    /// Applies every mutation of the batch, and returns the mutated module with the
    /// diagnostics that a bounds checker must report for it.
    ///
    /// The batch is split by (source kind, destination kind), and the pairs are taken
    /// in the order of the pointer model; within a pair, the mutations go to distinct
    /// nodes as long as there are enough of them, and their diagnostics come in the
    /// order of the batch. A native struct definition's field range cannot be
    /// corrupted: such a mutation gives no diagnostic.
    pub fn apply(self) -> (r: (CompiledModule, Vec<VerificationError>))
        requires
            self.inv(),
            forall|k: int| 0 <= k < self.mutations@.len() ==> (#[trigger] self.mutations@[k]).wf(),
        ensures
            exists|picks: Seq<Seq<usize>>|
                {
                    &&& self.valid_picks(picks)
                    &&& (r.0@, r.1@) == spec_apply_pairs(
                        self.module@,
                        self.type_sig_structs@,
                        self.function_sig_structs@,
                        self.locals_sig_structs@,
                        self.mutations@,
                        spec_edge_pairs(),
                        picks,
                    )
                },
            self.single_pair() ==> exists|p: Seq<usize>|
                {
                    let (s, d) = (self.mutations@[0].src_kind, self.mutations@[0].dst_kind);
                    &&& p.len() == if self.mutations@.len() < self.src_count(s) {
                        self.mutations@.len()
                    } else {
                        self.src_count(s)
                    }
                    &&& #[trigger] p.no_duplicates()
                    &&& forall|k: int| 0 <= k < p.len() ==> #[trigger] p[k] < self.src_count(s)
                    &&& (r.0@, r.1@) == spec_apply_group(
                        self.module@,
                        self.type_sig_structs@,
                        self.function_sig_structs@,
                        self.locals_sig_structs@,
                        s,
                        d,
                        self.module@.kind_count(d) as usize,
                        self.mutations@,
                        p,
                    )
                },
            self.mutations@.len() == 0 ==> r.0@ == self.module@ && r.1@.len() == 0,
            r.1@.len() <= self.mutations@.len(),
            self.single_pair() && is_range_pair(
                self.mutations@[0].src_kind,
                self.mutations@[0].dst_kind,
            ) && all_native(self.module@) ==> r.0@ == self.module@ && r.1@.len() == 0,
            forall|k: int| 0 <= k < r.1@.len() ==> reports_out_of_bounds(self.module@, #[trigger] r.1@[k]),
            forall|k: IndexKind| #[trigger] r.0@.kind_count(k) == self.module@.kind_count(k),
            r.0@.well_formed(),
    {
        let ghost m0 = self.module@;
        let ghost s0 = self;
        let mut ctx = self;
        let mut mutations: Vec<OutOfBoundsMutation> = Vec::new();
        std::mem::swap(&mut ctx.mutations, &mut mutations);
        let mut results: Vec<VerificationError> = Vec::new();
        let pairs = edge_pairs();
        let ghost mut picks: Seq<Seq<usize>> = seq![];
        let mut i: usize = 0;
        while i < pairs.len()
            invariant
                ctx.inv(),
                ctx.type_sig_structs == s0.type_sig_structs,
                ctx.function_sig_structs == s0.function_sig_structs,
                ctx.locals_sig_structs == s0.locals_sig_structs,
                mutations@ == s0.mutations@,
                s0.module@ == m0,
                forall|k: int| 0 <= k < mutations@.len() ==> (#[trigger] mutations@[k]).wf(),
                pairs@ == spec_edge_pairs(),
                i <= pairs@.len(),
                picks.len() == i,
                forall|n: int| 0 <= n < i ==> s0.pick_fits(#[trigger] picks[n], n),
                (ctx.module@, results@) == spec_apply_pairs(
                    m0,
                    s0.type_sig_structs@,
                    s0.function_sig_structs@,
                    s0.locals_sig_structs@,
                    s0.mutations@,
                    pairs@.take(i as int),
                    picks,
                ),
                s0.mutations@.len() == 0 ==> ctx.module@ == m0 && results@.len() == 0,
                results@.len() <= s0.mutations@.filter(in_pairs(pairs@.take(i as int))).len(),
                forall|k: int| 0 <= k < results@.len() ==> reports_out_of_bounds(m0, #[trigger] results@[k]),
                forall|k: IndexKind| #[trigger] ctx.module@.kind_count(k) == m0.kind_count(k),
            decreases pairs@.len() - i,
        {
            let (src_kind, dst_kind) = pairs[i];
            proof {
                lemma_edge_pair_is_edge(i as int);
            }
            let group = filter_pair(&mutations, src_kind, dst_kind);
            proof {
                assert forall|k: int| 0 <= k < group@.len() implies (#[trigger] group@[k]).wf() by {
                    let p = in_pair(src_kind, dst_kind);
                    mutations@.lemma_filter_contains_rev(p, group@[k]);
                    assert(mutations@.filter(p).contains(group@[k])) by {
                        assert(mutations@.filter(p)[k] == group@[k]);
                    }
                    let j = choose|j: int| 0 <= j < mutations@.len() && mutations@[j] == group@[k];
                    assert(mutations@[j].wf());
                }
                if s0.mutations@.len() == 0 {
                    assert(mutations@.filter(in_pair(src_kind, dst_kind)).len() == 0) by {
                        reveal_with_fuel(Seq::filter, 1);
                    }
                }
            }
            let ghost before = ctx.module@;
            assert(ctx.module@.kind_count(src_kind) == m0.kind_count(src_kind));
            let ghost count_before = ctx.src_count(src_kind);
            let mut diags = ctx.apply_one(src_kind, dst_kind, group);
            proof {
                let p = choose|p: Seq<usize>|
                    {
                        &&& p.len() == if group@.len() < count_before {
                            group@.len()
                        } else {
                            count_before
                        }
                        &&& p.no_duplicates()
                        &&& forall|k: int| 0 <= k < p.len() ==> #[trigger] p[k] < count_before
                        &&& (ctx.module@, diags@) == spec_apply_group(
                            before,
                            s0.type_sig_structs@,
                            s0.function_sig_structs@,
                            s0.locals_sig_structs@,
                            src_kind,
                            dst_kind,
                            before.kind_count(dst_kind) as usize,
                            group@,
                            p,
                        )
                    };
                assert(count_before == s0.src_count(src_kind));
                assert(pairs@.take(i + 1).drop_last() =~= pairs@.take(i as int));
                assert(pairs@.take(i + 1).last() == pairs@[i as int]);
                assert(picks.push(p).drop_last() =~= picks);
                assert(s0.pick_fits(p, i as int));
                picks = picks.push(p);
            }
            proof {
                lemma_pairs_count_step(s0.mutations@, i as int);
            }
            results.append(&mut diags);
            i += 1;
        }
        proof {
            assert(pairs@.take(i as int) =~= pairs@);
            s0.mutations@.lemma_filter_len(in_pairs(pairs@));
            assert(s0.valid_picks(picks));
            if s0.single_pair() {
                let muts = s0.mutations@;
                let (src, dst) = (muts[0].src_kind, muts[0].dst_kind);
                assert(muts[0].wf());
                lemma_edge_listed(src, dst);
                let n0 = edge_position(src, dst);
                assert forall|k: int| 0 <= k < muts.len() implies #[trigger] in_pair(src, dst)(
                    muts[k],
                ) by {}
                lemma_filter_all(muts, in_pair(src, dst));
                assert forall|j: int| 0 <= j < picks.len() && j != n0 implies (
                #[trigger] picks[j]).len() == 0 by {
                    lemma_edge_position(j);
                    let pj = spec_edge_pairs()[j];
                    assert(muts.all(|x: OutOfBoundsMutation| !in_pair(pj.0, pj.1)(x)));
                    muts.lemma_all_neg_filter_empty(in_pair(pj.0, pj.1));
                    assert(s0.pick_fits(picks[j], j));
                }
                lemma_apply_pairs_single(
                    m0,
                    s0.type_sig_structs@,
                    s0.function_sig_structs@,
                    s0.locals_sig_structs@,
                    muts,
                    picks,
                    n0,
                    spec_edge_pairs().len() as int,
                );
                assert(spec_edge_pairs().take(spec_edge_pairs().len() as int) =~= spec_edge_pairs());
                assert(picks.take(picks.len() as int) =~= picks);
                assert(s0.pick_fits(picks[n0], n0));
                if is_range_pair(src, dst) && all_native(m0) {
                    let p = picks[n0];
                    assert(forall|k: int| 0 <= k < p.len() ==> #[trigger] p[k] < m0.struct_defs.len());
                    lemma_native_group_skipped(
                        m0,
                        s0.type_sig_structs@,
                        s0.function_sig_structs@,
                        s0.locals_sig_structs@,
                        m0.kind_count(dst) as usize,
                        muts,
                        p,
                    );
                }
            }
        }
        (ctx.module, results)
    }

    /// Applies a group of mutations that share a source and a destination kind, each
    /// to its own node as long as there are enough nodes.
    pub fn apply_one(
        &mut self,
        src_kind: IndexKind,
        dst_kind: IndexKind,
        mutations: Vec<OutOfBoundsMutation>,
    ) -> (r: Vec<VerificationError>)
        requires
            old(self).inv(),
            is_edge(src_kind, dst_kind),
            forall|k: int| 0 <= k < mutations@.len() ==> (#[trigger] mutations@[k]).wf(),
        ensures
            final(self).inv(),
            exists|picks: Seq<usize>|
                {
                    &&& picks.len() == if mutations@.len() < old(self).src_count(src_kind) {
                        mutations@.len()
                    } else {
                        old(self).src_count(src_kind)
                    }
                    &&& picks.no_duplicates()
                    &&& forall|k: int| 0 <= k < picks.len() ==> #[trigger] picks[k] < old(self).src_count(src_kind)
                    &&& (final(self).module@, r@) == spec_apply_group(
                        old(self).module@,
                        old(self).type_sig_structs@,
                        old(self).function_sig_structs@,
                        old(self).locals_sig_structs@,
                        src_kind,
                        dst_kind,
                        old(self).module@.kind_count(dst_kind) as usize,
                        mutations@,
                        picks,
                    )
                },
            r@.len() <= mutations@.len(),
            mutations@.len() <= old(self).src_count(src_kind) && (!is_range_pair(src_kind, dst_kind)
                || all_declared(old(self).module@)) ==> r@.len() == mutations@.len(),
            forall|k: int| 0 <= k < r@.len() ==> reports_out_of_bounds(old(self).module@, #[trigger] r@[k]),
            forall|k: IndexKind| #[trigger] final(self).module@.kind_count(k) == old(self).module@.kind_count(k),
            final(self).mutations == old(self).mutations,
            final(self).type_sig_structs == old(self).type_sig_structs,
            final(self).function_sig_structs == old(self).function_sig_structs,
            final(self).locals_sig_structs == old(self).locals_sig_structs,
    {
        proof {
            lemma_edge_is_handled(src_kind, dst_kind);
        }
        // Only the signatures that refer to a struct can be corrupted, so those are
        // the ones to pick among; for other kinds any entry will do.
        let src_count: usize = match src_kind {
            IndexKind::TypeSignature => self.type_sig_structs.len(),
            IndexKind::FunctionSignature => self.function_sig_structs.len(),
            IndexKind::LocalsSignature => self.locals_sig_structs.len(),
            _ => self.module.kind_count(src_kind),
        };
        let mut selectors: Vec<Index> = Vec::new();
        let mut i: usize = 0;
        while i < mutations.len()
            invariant
                i <= mutations@.len(),
                selectors@.len() == i,
            decreases mutations@.len() - i,
        {
            selectors.push(mutations[i].src_idx);
            i += 1;
        }
        let picks = pick_slice_idxs(src_count, &selectors);
        assert(forall|k: int| 0 <= k < mutations@.len() ==> (#[trigger] mutations@[k]).offset < OFFSET_BOUND) by {
            assert forall|k: int| 0 <= k < mutations@.len() implies (#[trigger] mutations@[k]).offset < OFFSET_BOUND by {
                assert(mutations@[k].wf());
            }
        }
        let ghost m0 = self.module@;
        let r = self.apply_group(src_kind, dst_kind, &mutations, &picks);
        proof {
            assert(m0.tables_fit());
            assert(m0.kind_count(dst_kind) + 16 < 0x10000);
            lemma_apply_group_diagnostics(
                m0,
                self.type_sig_structs@,
                self.function_sig_structs@,
                self.locals_sig_structs@,
                src_kind,
                dst_kind,
                m0.kind_count(dst_kind) as usize,
                mutations@,
                picks@,
            );
        }
        r
    }

    /// Applies `mutations[k]` to the `picks[k]`-th corruptible node of kind `src_kind`,
    /// for each pick in order, and returns the diagnostics.
    pub fn apply_group(
        &mut self,
        src_kind: IndexKind,
        dst_kind: IndexKind,
        mutations: &Vec<OutOfBoundsMutation>,
        picks: &Vec<usize>,
    ) -> (r: Vec<VerificationError>)
        requires
            old(self).inv(),
            is_edge(src_kind, dst_kind),
            picks@.len() <= mutations@.len(),
            forall|k: int| 0 <= k < picks@.len() ==> #[trigger] picks@[k] < old(self).src_count(
                src_kind,
            ),
            forall|k: int| 0 <= k < mutations@.len() ==> (#[trigger] mutations@[k]).offset
                < OFFSET_BOUND,
        ensures
            final(self).inv(),
            (final(self).module@, r@) == spec_apply_group(
                old(self).module@,
                old(self).type_sig_structs@,
                old(self).function_sig_structs@,
                old(self).locals_sig_structs@,
                src_kind,
                dst_kind,
                old(self).module@.kind_count(dst_kind) as usize,
                mutations@,
                picks@,
            ),
            forall|k: IndexKind| #[trigger] final(self).module@.kind_count(k) == old(self).module@.kind_count(k),
            final(self).mutations == old(self).mutations,
            final(self).type_sig_structs == old(self).type_sig_structs,
            final(self).function_sig_structs == old(self).function_sig_structs,
            final(self).locals_sig_structs == old(self).locals_sig_structs,
    {
        let ghost m0 = self.module@;
        let ghost s0_count = self.src_count(src_kind);
        let dst_count = self.module.kind_count(dst_kind);
        let mut r: Vec<VerificationError> = Vec::new();
        let mut i: usize = 0;
        while i < picks.len()
            invariant
                self.inv(),
                i <= picks@.len(),
                picks@.len() <= mutations@.len(),
                is_edge(src_kind, dst_kind),
                dst_count == m0.kind_count(dst_kind),
                forall|k: IndexKind| #[trigger] self.module@.kind_count(k) == m0.kind_count(k),
                self.src_count(src_kind) == s0_count,
                forall|k: int| 0 <= k < picks@.len() ==> #[trigger] picks@[k] < s0_count,
                forall|k: int| 0 <= k < mutations@.len() ==> (#[trigger] mutations@[k]).offset
                    < OFFSET_BOUND,
                self.mutations == old(self).mutations,
                self.type_sig_structs == old(self).type_sig_structs,
                self.function_sig_structs == old(self).function_sig_structs,
                self.locals_sig_structs == old(self).locals_sig_structs,
                (self.module@, r@) == spec_apply_group(
                    m0,
                    self.type_sig_structs@,
                    self.function_sig_structs@,
                    self.locals_sig_structs@,
                    src_kind,
                    dst_kind,
                    dst_count,
                    mutations@,
                    picks@.take(i as int),
                ),
            decreases picks@.len() - i,
        {
            assert(picks@.take(i + 1).drop_last() =~= picks@.take(i as int));
            let offset = mutations[i].offset;
            assert(self.module@.tables_fit());
            assert(self.module@.kind_count(dst_kind) + 16 < 0x10000);
            let new_idx = (dst_count + offset) as TableIndex;
            let e = self.set_index(src_kind, picks[i], dst_kind, dst_count, new_idx);
            match e {
                Some(d) => {
                    r.push(d);
                },
                None => {},
            }
            proof {
                assert(r@ =~= spec_apply_group(
                    m0,
                    self.type_sig_structs@,
                    self.function_sig_structs@,
                    self.locals_sig_structs@,
                    src_kind,
                    dst_kind,
                    dst_count,
                    mutations@,
                    picks@.take(i + 1),
                ).1);
            }
            i += 1;
        }
        assert(picks@.take(i as int) =~= picks@);
        r
    }

    /// Builds a context over `module` for `mutations`, listing the signature tokens
    /// that refer to a struct.
    pub fn new(module: CompiledModule, mutations: Vec<OutOfBoundsMutation>) -> (r: Self)
        requires
            module@.well_formed(),
        ensures
            r.inv(),
            r.module == module,
            r.mutations == mutations,
            r.type_sig_structs@ == struct_positions(module@.type_signatures),
            r.function_sig_structs@ == function_structs(module@.function_signatures),
            r.locals_sig_structs@ == locals_structs(module@.locals_signatures),
    {
        let type_sig_structs = Self::type_sig_structs(&module);
        let function_sig_structs = Self::function_sig_structs(&module);
        let locals_sig_structs = Self::locals_sig_structs(&module);
        ApplyOutOfBoundsContext {
            module,
            mutations,
            type_sig_structs,
            function_sig_structs,
            locals_sig_structs,
        }
    }

    /// The positions of the tokens that refer to a struct, in order.
    fn find_struct_tokens(tokens: &Vec<SignatureToken>) -> (r: Vec<usize>)
        ensures
            r@ == struct_positions(tokens@),
            forall|k: int|
                0 <= k < r@.len() ==> #[trigger] r@[k] < tokens@.len() && token_struct_handle(
                    tokens@[r@[k] as int],
                ) is Some,
    {
        let mut r: Vec<usize> = Vec::new();
        let mut i: usize = 0;
        while i < tokens.len()
            invariant
                i <= tokens@.len(),
                r@ == struct_positions(tokens@.take(i as int)),
                forall|k: int|
                    0 <= k < r@.len() ==> #[trigger] r@[k] < i && token_struct_handle(
                        tokens@[r@[k] as int],
                    ) is Some,
            decreases tokens@.len() - i,
        {
            assert(tokens@.take(i + 1).drop_last() =~= tokens@.take(i as int));
            if tokens[i].struct_index().is_some() {
                r.push(i);
            }
            i += 1;
        }
        assert(tokens@.take(i as int) =~= tokens@);
        r
    }

    /// The type signatures that refer to a struct.
    fn type_sig_structs(module: &CompiledModule) -> (r: Vec<usize>)
        ensures
            r@ == struct_positions(module@.type_signatures),
            forall|k: int|
                0 <= k < r@.len() ==> #[trigger] r@[k] < module@.type_signatures.len()
                    && token_struct_handle(module@.type_signatures[r@[k] as int]) is Some,
    {
        Self::find_struct_tokens(&module.type_signatures)
    }

    /// The function signature tokens that refer to a struct: every return token
    /// first, then every argument token.
    fn function_sig_structs(module: &CompiledModule) -> (r: Vec<
        FunctionSignatureTokenIndex,
    >)
        ensures
            r@ == function_structs(module@.function_signatures),
            forall|k: int|
                0 <= k < r@.len() ==> fn_token_valid(module@.function_signatures, #[trigger] r@[k]),
    {
        let mut r = Self::sig_tokens(&module.function_signatures, true);
        let mut args = Self::sig_tokens(&module.function_signatures, false);
        let ghost r0 = r@;
        let ghost a0 = args@;
        r.append(&mut args);
        assert forall|k: int| 0 <= k < r@.len() implies fn_token_valid(
            module@.function_signatures,
            #[trigger] r@[k],
        ) by {
            if k >= r0.len() {
                assert(r@[k] == a0[k - r0.len()]);
            }
        }
        r
    }

    /// The struct-referring return tokens (`want_returns`) or argument tokens of `sigs`.
    fn sig_tokens(sigs: &Vec<FunctionSignature>, want_returns: bool) -> (r: Vec<
        FunctionSignatureTokenIndex,
    >)
        ensures
            r@ == sig_structs(sigs@.map_values(|s: FunctionSignature| s@), want_returns),
            forall|k: int|
                0 <= k < r@.len() ==> fn_token_valid(
                    sigs@.map_values(|s: FunctionSignature| s@),
                    #[trigger] r@[k],
                ),
    {
        let ghost sv = sigs@.map_values(|s: FunctionSignature| s@);
        let mut r: Vec<FunctionSignatureTokenIndex> = Vec::new();
        let mut i: usize = 0;
        while i < sigs.len()
            invariant
                sv == sigs@.map_values(|s: FunctionSignature| s@),
                i <= sigs@.len(),
                r@ == sig_structs(sv.take(i as int), want_returns),
                forall|k: int| 0 <= k < r@.len() ==> fn_token_valid(sv, #[trigger] r@[k]),
                forall|k: int| 0 <= k < r@.len() ==> (#[trigger] r@[k] matches FunctionSignatureTokenIndex::ReturnType(a, _) ==> a < i),
                forall|k: int| 0 <= k < r@.len() ==> (#[trigger] r@[k] matches FunctionSignatureTokenIndex::ArgType(a, _) ==> a < i),
            decreases sigs@.len() - i,
        {
            let tokens = if want_returns { &sigs[i].return_types } else { &sigs[i].arg_types };
            let positions = Self::find_struct_tokens(tokens);
            let ghost before = r@;
            let ghost mapped = positions@.map_values(
                |j: usize|
                    if want_returns {
                        FunctionSignatureTokenIndex::ReturnType(i, j)
                    } else {
                        FunctionSignatureTokenIndex::ArgType(i, j)
                    },
            );
            assert(sv.take(i + 1).drop_last() =~= sv.take(i as int));
            assert(sv.take(i + 1).last() == sv[i as int]);
            assert(sig_structs(sv.take(i + 1), want_returns) =~= before + mapped);
            let mut p: usize = 0;
            while p < positions.len()
                invariant
                    sv == sigs@.map_values(|s: FunctionSignature| s@),
                    i < sigs@.len(),
                    p <= positions@.len(),
                    tokens@ == if want_returns { sv[i as int].return_types } else { sv[i as int].arg_types },
                    forall|k: int|
                        0 <= k < positions@.len() ==> #[trigger] positions@[k] < tokens@.len()
                            && token_struct_handle(tokens@[positions@[k] as int]) is Some,
                    mapped == positions@.map_values(
                        |j: usize|
                            if want_returns {
                                FunctionSignatureTokenIndex::ReturnType(i, j)
                            } else {
                                FunctionSignatureTokenIndex::ArgType(i, j)
                            },
                    ),
                    r@ == before + mapped.take(p as int),
                    forall|k: int| 0 <= k < r@.len() ==> fn_token_valid(sv, #[trigger] r@[k]),
                    forall|k: int| 0 <= k < r@.len() ==> (#[trigger] r@[k] matches FunctionSignatureTokenIndex::ReturnType(a, _) ==> a <= i),
                    forall|k: int| 0 <= k < r@.len() ==> (#[trigger] r@[k] matches FunctionSignatureTokenIndex::ArgType(a, _) ==> a <= i),
                decreases positions@.len() - p,
            {
                let t = if want_returns {
                    FunctionSignatureTokenIndex::ReturnType(i, positions[p])
                } else {
                    FunctionSignatureTokenIndex::ArgType(i, positions[p])
                };
                r.push(t);
                assert(mapped.take(p + 1) =~= mapped.take(p as int).push(t));
                p += 1;
            }
            assert(mapped.take(p as int) =~= mapped);
            i += 1;
        }
        assert(sv.take(i as int) =~= sv);
        r
    }

    /// The locals signature tokens that refer to a struct.
    fn locals_sig_structs(module: &CompiledModule) -> (r: Vec<(usize, usize)>)
        ensures
            r@ == locals_structs(module@.locals_signatures),
            forall|k: int|
                0 <= k < r@.len() ==> #[trigger] r@[k].0 < module@.locals_signatures.len()
                    && r@[k].1 < module@.locals_signatures[r@[k].0 as int].len()
                    && token_struct_handle(
                    module@.locals_signatures[r@[k].0 as int][r@[k].1 as int],
                ) is Some,
    {
        let sigs = &module.locals_signatures;
        let ghost sv = module@.locals_signatures;
        let mut r: Vec<(usize, usize)> = Vec::new();
        let mut i: usize = 0;
        while i < sigs.len()
            invariant
                sv == sigs@.map_values(|s: Vec<SignatureToken>| s@),
                i <= sigs@.len(),
                r@ == locals_structs(sv.take(i as int)),
                forall|k: int|
                    0 <= k < r@.len() ==> #[trigger] r@[k].0 < i && r@[k].1 < sv[r@[k].0 as int].len()
                        && token_struct_handle(sv[r@[k].0 as int][r@[k].1 as int]) is Some,
            decreases sigs@.len() - i,
        {
            let positions = Self::find_struct_tokens(&sigs[i]);
            let ghost before = r@;
            let ghost mapped = positions@.map_values(|j: usize| (i, j));
            assert(sv.take(i + 1).drop_last() =~= sv.take(i as int));
            assert(sv.take(i + 1).last() == sv[i as int]);
            let mut p: usize = 0;
            while p < positions.len()
                invariant
                    sv == sigs@.map_values(|s: Vec<SignatureToken>| s@),
                    i < sigs@.len(),
                    p <= positions@.len(),
                    positions@ == struct_positions(sv[i as int]),
                    forall|k: int|
                        0 <= k < positions@.len() ==> #[trigger] positions@[k] < sv[i as int].len()
                            && token_struct_handle(sv[i as int][positions@[k] as int]) is Some,
                    mapped == positions@.map_values(|j: usize| (i, j)),
                    r@ == before + mapped.take(p as int),
                    forall|k: int|
                        0 <= k < before.len() ==> #[trigger] before[k].0 < i && before[k].1 < sv[before[k].0 as int].len()
                            && token_struct_handle(sv[before[k].0 as int][before[k].1 as int]) is Some,
                    forall|k: int|
                        0 <= k < r@.len() ==> #[trigger] r@[k].0 <= i && r@[k].1 < sv[r@[k].0 as int].len()
                            && token_struct_handle(sv[r@[k].0 as int][r@[k].1 as int]) is Some,
                decreases positions@.len() - p,
            {
                r.push((i, positions[p]));
                assert(mapped.take(p + 1) =~= mapped.take(p as int).push((i, positions@[p as int])));
                p += 1;
            }
            assert(mapped.take(p as int) =~= mapped);
            i += 1;
        }
        assert(sv.take(i as int) =~= sv);
        r
    }

    /// Sets the pointer of kind `dst_kind` held by the `src_idx`-th corruptible node of
    /// kind `src_kind` to `new_idx`, and returns the diagnostic this calls for.
    ///
    /// For example, with `src_kind` a module handle and `dst_kind` the address pool,
    /// this sets the address of the `src_idx`-th module handle. A native struct
    /// definition has no field range to corrupt, and is left as it is.
    pub fn set_index(
        &mut self,
        src_kind: IndexKind,
        src_idx: usize,
        dst_kind: IndexKind,
        dst_count: usize,
        new_idx: TableIndex,
    ) -> (r: Option<VerificationError>)
        requires
            old(self).inv(),
            is_edge(src_kind, dst_kind),
            src_idx < old(self).src_count(src_kind),
            dst_count == old(self).module@.kind_count(dst_kind),
            dst_count <= new_idx < 0xffff,
        ensures
            final(self).inv(),
            (final(self).module@, r) == old(self).set_index_result(
                src_kind,
                src_idx as int,
                dst_kind,
                dst_count,
                new_idx,
            ),
            forall|k: IndexKind| #[trigger] final(self).module@.kind_count(k) == old(self).module@.kind_count(k),
            is_range_pair(src_kind, dst_kind) && old(
                self,
            ).module@.struct_defs[src_idx as int].field_information is Native ==> r is None
                && final(self).module@ == old(self).module@,
            is_range_pair(src_kind, dst_kind) && old(
                self,
            ).module@.struct_defs[src_idx as int].field_information is Native ==> r is None
                && final(self).module@ == old(self).module@,
            final(self).mutations == old(self).mutations,
            final(self).type_sig_structs == old(self).type_sig_structs,
            final(self).function_sig_structs == old(self).function_sig_structs,
            final(self).locals_sig_structs == old(self).locals_sig_structs,
    {
        let ghost m0 = self.module@;
        let ghost expected = old(self).set_index_result(src_kind, src_idx as int, dst_kind, dst_count, new_idx);
        let mut idx = src_idx;
        let mut err = VMStaticViolation::IndexOutOfBounds(dst_kind, dst_count, new_idx as usize);
        match (src_kind, dst_kind) {
            (IndexKind::ModuleHandle, IndexKind::AddressPool) => {
                let mut h = self.module.module_handles[src_idx];
                h.address = new_idx;
                self.module.module_handles.set(src_idx, h);
            },
            (IndexKind::ModuleHandle, IndexKind::StringPool) => {
                let mut h = self.module.module_handles[src_idx];
                h.name = new_idx;
                self.module.module_handles.set(src_idx, h);
            },
            (IndexKind::StructHandle, IndexKind::ModuleHandle) => {
                let mut h = self.module.struct_handles[src_idx];
                h.module = new_idx;
                self.module.struct_handles.set(src_idx, h);
            },
            (IndexKind::StructHandle, IndexKind::StringPool) => {
                let mut h = self.module.struct_handles[src_idx];
                h.name = new_idx;
                self.module.struct_handles.set(src_idx, h);
            },
            (IndexKind::FunctionHandle, IndexKind::ModuleHandle) => {
                let mut h = self.module.function_handles[src_idx];
                h.module = new_idx;
                self.module.function_handles.set(src_idx, h);
            },
            (IndexKind::FunctionHandle, IndexKind::StringPool) => {
                let mut h = self.module.function_handles[src_idx];
                h.name = new_idx;
                self.module.function_handles.set(src_idx, h);
            },
            (IndexKind::FunctionHandle, IndexKind::FunctionSignature) => {
                let mut h = self.module.function_handles[src_idx];
                h.signature = new_idx;
                self.module.function_handles.set(src_idx, h);
            },
            (IndexKind::StructDefinition, IndexKind::StructHandle) => {
                let mut d = self.module.struct_defs[src_idx];
                d.struct_handle = new_idx;
                self.module.struct_defs.set(src_idx, d);
            },
            (IndexKind::StructDefinition, IndexKind::FieldDefinition) => {
                let mut d = self.module.struct_defs[src_idx];
                let field_count = match d.field_information {
                    // A native struct definition has no field range to make invalid.
                    StructFieldInformation::Native => return None,
                    StructFieldInformation::Declared { field_count, .. } => field_count,
                };
                // With fields [1, 3) in a table of 3, the smallest `new_idx` is 3, and the
                // range becomes [2, 4): it keeps its length and ends at `new_idx + 1`,
                // past the end of the table.
                let end_idx: TableIndex = new_idx + 1;
                let first_new_idx: TableIndex = end_idx - field_count;
                d.field_information = StructFieldInformation::Declared {
                    field_count,
                    fields: first_new_idx,
                };
                self.module.struct_defs.set(src_idx, d);
                err = VMStaticViolation::RangeOutOfBounds(
                    dst_kind,
                    dst_count,
                    first_new_idx as usize,
                    end_idx as usize,
                );
            },
            (IndexKind::FieldDefinition, IndexKind::StructHandle) => {
                let mut d = self.module.field_defs[src_idx];
                d.struct_ = new_idx;
                self.module.field_defs.set(src_idx, d);
            },
            (IndexKind::FieldDefinition, IndexKind::StringPool) => {
                let mut d = self.module.field_defs[src_idx];
                d.name = new_idx;
                self.module.field_defs.set(src_idx, d);
            },
            (IndexKind::FieldDefinition, IndexKind::TypeSignature) => {
                let mut d = self.module.field_defs[src_idx];
                d.signature = new_idx;
                self.module.field_defs.set(src_idx, d);
            },
            (IndexKind::FunctionDefinition, IndexKind::FunctionHandle) => {
                let mut d = self.module.function_defs[src_idx];
                d.function = new_idx;
                self.module.function_defs.set(src_idx, d);
            },
            (IndexKind::FunctionDefinition, IndexKind::LocalsSignature) => {
                let mut d = self.module.function_defs[src_idx];
                d.locals = new_idx;
                self.module.function_defs.set(src_idx, d);
            },
            (IndexKind::TypeSignature, IndexKind::StructHandle) => {
                // Signatures are picked among those that refer to a struct.
                let a = self.type_sig_structs[src_idx];
                let mut tok = SignatureToken::Bool;
                self.module.type_signatures.set_and_swap(a, &mut tok);
                proof {
                    lemma_with_struct_handle(tok, new_idx);
                }
                self.module.type_signatures.set(a, tok.with_struct_handle(new_idx));
                assert(self.module.type_signatures@ =~= m0.type_signatures.update(
                    a as int,
                    token_with_struct_handle(m0.type_signatures[a as int], new_idx),
                ));
                idx = a;
            },
            (IndexKind::FunctionSignature, IndexKind::StructHandle) => {
                match self.function_sig_structs[src_idx] {
                    FunctionSignatureTokenIndex::ReturnType(a, j) => {
                        let mut sig = FunctionSignature {
                            return_types: Vec::new(),
                            arg_types: Vec::new(),
                        };
                        self.module.function_signatures.set_and_swap(a, &mut sig);
                        let mut tok = SignatureToken::Bool;
                        sig.return_types.set_and_swap(j, &mut tok);
                        proof {
                            lemma_with_struct_handle(tok, new_idx);
                        }
                        sig.return_types.set(j, tok.with_struct_handle(new_idx));
                        assert(sig.return_types@ =~= m0.function_signatures[a as int].return_types.update(
                            j as int,
                            token_with_struct_handle(
                                m0.function_signatures[a as int].return_types[j as int],
                                new_idx,
                            ),
                        ));
                        self.module.function_signatures.set(a, sig);
                        assert(self.module@.function_signatures =~= expected.0.function_signatures);
                        idx = a;
                    },
                    FunctionSignatureTokenIndex::ArgType(a, j) => {
                        let mut sig = FunctionSignature {
                            return_types: Vec::new(),
                            arg_types: Vec::new(),
                        };
                        self.module.function_signatures.set_and_swap(a, &mut sig);
                        let mut tok = SignatureToken::Bool;
                        sig.arg_types.set_and_swap(j, &mut tok);
                        proof {
                            lemma_with_struct_handle(tok, new_idx);
                        }
                        sig.arg_types.set(j, tok.with_struct_handle(new_idx));
                        assert(sig.arg_types@ =~= m0.function_signatures[a as int].arg_types.update(
                            j as int,
                            token_with_struct_handle(
                                m0.function_signatures[a as int].arg_types[j as int],
                                new_idx,
                            ),
                        ));
                        self.module.function_signatures.set(a, sig);
                        assert(self.module@.function_signatures =~= expected.0.function_signatures);
                        idx = a;
                    },
                }
            },
            (IndexKind::LocalsSignature, IndexKind::StructHandle) => {
                let (a, j) = self.locals_sig_structs[src_idx];
                let mut sig: Vec<SignatureToken> = Vec::new();
                self.module.locals_signatures.set_and_swap(a, &mut sig);
                let mut tok = SignatureToken::Bool;
                sig.set_and_swap(j, &mut tok);
                proof {
                    lemma_with_struct_handle(tok, new_idx);
                }
                sig.set(j, tok.with_struct_handle(new_idx));
                assert(sig@ =~= m0.locals_signatures[a as int].update(
                    j as int,
                    token_with_struct_handle(m0.locals_signatures[a as int][j as int], new_idx),
                ));
                self.module.locals_signatures.set(a, sig);
                assert(self.module@.locals_signatures =~= expected.0.locals_signatures);
                idx = a;
            },
            // No other pair is an edge of the pointer model.
            _ => {
                return None;
            },
        }
        proof {
            lemma_set_index_keeps_structs(
                m0,
                self.type_sig_structs@,
                self.function_sig_structs@,
                self.locals_sig_structs@,
                src_kind,
                src_idx as int,
                dst_kind,
                dst_count,
                new_idx,
            );
            lemma_set_index_keeps_inv(
                m0,
                self.type_sig_structs@,
                self.function_sig_structs@,
                self.locals_sig_structs@,
                src_kind,
                src_idx as int,
                dst_kind,
                dst_count,
                new_idx,
            );
        }
        Some(VerificationError { kind: src_kind, idx, err })
    }
}

} // verus!
