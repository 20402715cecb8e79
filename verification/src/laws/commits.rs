//! Stored and committed blocks, and the end of a handler.

use crate::consensus::Round;
use crate::keys::Digest;
use crate::laws::{
    admits_all, admitted, adopts_checkpoint, law_runs_keep_wf, law_runs_never_go_back,
    lemma_admitted, lemma_state_succ, lemma_step, lemma_unfold, reply_at, run, state_at,
};
use crate::messages::BlockView;
use crate::model::{commit_effects, newly, oldest, CoreView};
use crate::protocol::{EffectView, InputView, NextView, QueryView, StageView};
use vstd::prelude::*;

verus! {

/// The blocks handed to the application, in their order.
pub open spec fn committed(effects: Seq<EffectView>) -> Seq<BlockView>
    decreases effects.len(),
{
    if effects.len() == 0 {
        Seq::empty()
    } else {
        let before = committed(effects.drop_last());
        match effects.last() {
            EffectView::Commit(block) => before.push(block),
            _ => before,
        }
    }
}

proof fn lemma_committed_none(effects: Seq<EffectView>)
    requires
        forall|i: int| 0 <= i < effects.len() ==> !(#[trigger] effects[i] is Commit),
    ensures
        committed(effects) == Seq::<BlockView>::empty(),
    decreases effects.len(),
{
    if effects.len() > 0 {
        lemma_committed_none(effects.drop_last());
    }
}

proof fn lemma_committed_all(before: Seq<EffectView>, blocks: Seq<BlockView>)
    ensures
        committed(before + commit_effects(blocks)) == committed(before) + blocks,
    decreases blocks.len(),
{
    let effects = before + commit_effects(blocks);
    if blocks.len() > 0 {
        lemma_committed_all(before, blocks.drop_last());
        assert(effects.drop_last() =~= before + commit_effects(blocks.drop_last()));
        assert(effects.last() == EffectView::Commit(blocks.last()));
        assert(committed(before) + blocks =~= (committed(before) + blocks.drop_last()).push(
            blocks.last(),
        ));
    } else {
        assert(effects =~= before);
        assert(committed(before) + blocks =~= committed(before));
    }
}

/// The blocks that a step commits: none, unless it finishes a commit.
pub open spec fn commit_of_step(core: CoreView, input: InputView) -> Seq<BlockView> {
    match (core.stage, input) {
        (StageView::BlockDigest { block, b0, b1 }, _) => {
            if b0.round + 1 == b1.round && b0.round == core.last_committed_round + 1 {
                seq![b0]
            } else {
                Seq::empty()
            }
        },
        (
            StageView::ParentLookup { block, head, ancestors },
            InputView::ParentFound(Ok(Some(parent))),
        ) => {
            if parent.round <= core.last_committed_round + 1 {
                newly(core.last_committed_round, ancestors.push(parent)).push(head)
            } else {
                Seq::empty()
            }
        },
        _ => Seq::empty(),
    }
}

/// The effects that come before those of a commit.
spec fn effects_before_commit(core: CoreView, input: InputView) -> Seq<EffectView> {
    match (core.stage, input) {
        (StageView::BlockDigest { block, b0, b1 }, InputView::Digest(digest)) => {
            core.step(input).1.effects.take(
                if b0.round + 1 == b1.round {
                    3
                } else {
                    2
                },
            )
        },
        (StageView::ParentLookup { .. }, _) => Seq::empty(),
        _ => core.step(input).1.effects,
    }
}

/// A block is committed exactly where the chain that leads back to the last
/// committed round is complete. The newly committed ancestors come in the order in
/// which they were looked up, which begins with the parent of the head; the head
/// comes last.
#[verifier::rlimit(30)]
pub proof fn law_commits(core: CoreView, input: InputView)
    requires
        core.wf(),
        core.admits(input),
    ensures
        committed(core.step(input).1.effects) == commit_of_step(core, input),
{
    let effects = core.step(input).1.effects;
    let before = effects_before_commit(core, input);
    let blocks = commit_of_step(core, input);
    assert(effects =~= before + commit_effects(blocks));
    assert(forall|i: int| 0 <= i < before.len() ==> !(#[trigger] before[i] is Commit));
    lemma_committed_none(before);
    lemma_committed_all(before, blocks);
    assert(Seq::<BlockView>::empty() + blocks =~= blocks);
}

/// The last committed round changes with every commit and only then, unless a
/// checkpoint is adopted: it becomes the round of the block committed last.
pub proof fn law_committed_round_follows_commits(core: CoreView, input: InputView)
    requires
        core.wf(),
        core.admits(input),
        !adopts_checkpoint(core, input),
    ensures
        ({
            let blocks = committed(core.step(input).1.effects);
            let after = core.step(input).0.last_committed_round;
            &&& blocks.len() > 0 ==> after == blocks.last().round && after
                > core.last_committed_round
            &&& blocks.len() == 0 ==> after == core.last_committed_round
        }),
{
    law_commits(core, input);
}

/// Only new blocks are committed: each is of a round after the last committed one.
pub proof fn law_committed_blocks_are_new(core: CoreView, input: InputView, i: int)
    requires
        core.wf(),
        core.admits(input),
        0 <= i < committed(core.step(input).1.effects).len(),
    ensures
        committed(core.step(input).1.effects)[i].round > core.last_committed_round,
{
    law_commits(core, input);
}

/// In every run, the blocks of a commit are of rounds after what was the last
/// committed round at any earlier point: nothing that was committed by then is
/// committed again.
pub proof fn law_committed_blocks_are_new_in_runs(
    core: CoreView,
    inputs: Seq<InputView>,
    i: int,
    j: int,
    k: int,
)
    requires
        core.wf(),
        admits_all(core, inputs),
        0 <= i <= j < inputs.len(),
        0 <= k < committed(reply_at(core, inputs, j).effects).len(),
    ensures
        committed(reply_at(core, inputs, j).effects)[k].round > state_at(
            core,
            inputs,
            i,
        ).last_committed_round,
{
    law_runs_keep_wf(core, inputs, j);
    law_runs_never_go_back(core, inputs, i, j);
    lemma_admitted(core, inputs, j);
    lemma_unfold(state_at(core, inputs, j), inputs[j]);
    law_committed_blocks_are_new(state_at(core, inputs, j), inputs[j], k);
}

/// A commit begins only with a block whose child directly follows it, as part of
/// the chain `b0 <- b1 <- block`. It is then announced to the mempool.
#[verifier::rlimit(30)]
pub proof fn law_commit_needs_a_chain_of_two(
    core: CoreView,
    block: BlockView,
    b0: BlockView,
    b1: BlockView,
    digest: Digest,
)
    requires
        core.wf(),
        core.stage == (StageView::BlockDigest { block, b0, b1 }),
        core.admits(InputView::Digest(digest)),
    ensures
        ({
            let (after, reply) = core.step(InputView::Digest(digest));
            &&& committed(reply.effects).len() > 0 || after.stage is ParentLookup ==> b0.round + 1
                == b1.round
            &&& committed(reply.effects).len() > 0 ==> committed(reply.effects) == seq![b0]
            &&& after.stage matches StageView::ParentLookup { block: b, head, ancestors } ==> b
                == block && head == b0 && ancestors.len() == 0
            &&& reply.effects.contains(EffectView::CleanupMempool(b0.round)) <==> b0.round + 1
                == b1.round
        }),
{
    let input = InputView::Digest(digest);
    law_commits(core, input);
    let effects = core.step(input).1.effects;
    if b0.round + 1 == b1.round {
        assert(effects[2] == EffectView::CleanupMempool(b0.round));
    }
}

/// The inputs of a commit that looks up the given ancestors.
pub open spec fn commit_inputs(digest: Digest, parents: Seq<BlockView>) -> Seq<InputView> {
    seq![InputView::Digest(digest)] + parents.map_values(
        |parent: BlockView| InputView::ParentFound(Ok(Some(parent))),
    )
}

proof fn lemma_commit_walk(
    core: CoreView,
    block: BlockView,
    b0: BlockView,
    b1: BlockView,
    digest: Digest,
    parents: Seq<BlockView>,
    k: int,
)
    requires
        core.stage == (StageView::BlockDigest { block, b0, b1 }),
        b0.round < Round::MAX,
        b0.round + 1 == b1.round,
        core.last_committed_round < b0.round,
        core.votable(block),
        forall|i: int|
            0 <= i < parents.len() ==> core.last_committed_round + 1 < oldest(
                b0,
                #[trigger] parents.take(i),
            ).round,
        0 <= k < parents.len(),
    ensures
        ({
            let inputs = commit_inputs(digest, parents);
            let ancestors = parents.take(k);
            &&& admitted(state_at(core, inputs, k), inputs[k])
            &&& state_at(core, inputs, k + 1) == (CoreView {
                stage: StageView::ParentLookup { block, head: b0, ancestors },
                ..core
            })
            &&& reply_at(core, inputs, k).next == NextView::Ask(
                QueryView::Parent(oldest(b0, ancestors)),
            )
            &&& k > 0 ==> reply_at(core, inputs, k).effects == Seq::<EffectView>::empty()
        }),
    decreases k,
{
    let inputs = commit_inputs(digest, parents);
    let ancestors = parents.take(k);
    let after = CoreView {
        stage: StageView::ParentLookup { block, head: b0, ancestors },
        ..core
    };
    lemma_state_succ(core, inputs, k);
    if k == 0 {
        assert(inputs.take(0) =~= Seq::empty());
        assert(ancestors =~= Seq::empty());
        let reply = core.step(inputs[0]).1;
        lemma_step(core, inputs[0], after, reply);
    } else {
        lemma_commit_walk(core, block, b0, b1, digest, parents, k - 1);
        let before = state_at(core, inputs, k);
        assert(parents.take(k - 1).push(parents[k - 1]) =~= ancestors);
        let reply = before.step(inputs[k]).1;
        lemma_step(before, inputs[k], after, reply);
    }
}

/// A commit reaches back to the last committed round: each ancestor that is
/// looked up is the parent of the one before, beginning with the parent of the
/// head, until one is of the round after the last committed one or older. Then
/// those of later rounds than the last committed one are committed, and the head.
#[verifier::rlimit(30)]
pub proof fn law_whole_chain_is_committed(
    core: CoreView,
    block: BlockView,
    b0: BlockView,
    b1: BlockView,
    digest: Digest,
    parents: Seq<BlockView>,
)
    requires
        core.wf(),
        core.stage == (StageView::BlockDigest { block, b0, b1 }),
        b0.round < Round::MAX,
        b0.round + 1 == b1.round,
        core.last_committed_round < b0.round,
        core.votable(block),
        forall|i: int|
            0 <= i < parents.len() ==> core.last_committed_round + 1 < oldest(
                b0,
                #[trigger] parents.take(i),
            ).round,
        oldest(b0, parents).round <= core.last_committed_round + 1,
    ensures
        ({
            let inputs = commit_inputs(digest, parents);
            &&& admits_all(core, inputs)
            &&& forall|i: int|
                0 <= i < parents.len() ==> (#[trigger] reply_at(core, inputs, i)).next
                    == NextView::Ask(QueryView::Parent(oldest(b0, parents.take(i))))
                    && committed(reply_at(core, inputs, i).effects).len() == 0
            &&& committed(reply_at(core, inputs, parents.len() as int).effects) == newly(
                core.last_committed_round,
                parents,
            ).push(b0)
            &&& run(core, inputs).last_committed_round == b0.round
        }),
{
    let inputs = commit_inputs(digest, parents);
    let n = parents.len() as int;
    assert(inputs.take(n + 1) =~= inputs);
    lemma_state_succ(core, inputs, n);
    let before = state_at(core, inputs, n);
    if n == 0 {
        assert(inputs.take(0) =~= Seq::empty());
        assert(parents.push(b0) =~= seq![b0]);
    } else {
        lemma_commit_walk(core, block, b0, b1, digest, parents, n - 1);
        assert(parents.take(n - 1).push(parents[n - 1]) =~= parents);
        assert forall|i: int|
            0 <= i < parents.take(n - 1).len() implies core.last_committed_round + 1 < (
        #[trigger] parents.take(n - 1)[i]).round by {
            assert(parents.take(i + 1).last() == parents[i]);
        }
        assert(before.wf());
    }
    assert(before.admits(inputs[n]));
    law_commits(before, inputs[n]);
    lemma_unfold(before, inputs[n]);
    assert(run(core, inputs).last_committed_round == b0.round);
    assert forall|i: int| 0 <= i < inputs.len() implies admitted(
        #[trigger] state_at(core, inputs, i),
        inputs[i],
    ) by {
        if i < n {
            lemma_commit_walk(core, block, b0, b1, digest, parents, i);
        }
    }
    assert forall|i: int| 0 <= i < n implies (#[trigger] reply_at(core, inputs, i)).next
        == NextView::Ask(QueryView::Parent(oldest(b0, parents.take(i)))) && committed(
        reply_at(core, inputs, i).effects,
    ).len() == 0 by {
        lemma_commit_walk(core, block, b0, b1, digest, parents, i);
        if i == 0 {
            assert(inputs.take(0) =~= Seq::empty());
            assert(parents.take(0) =~= Seq::empty());
            law_commits(core, inputs[0]);
            lemma_unfold(core, inputs[0]);
        }
    }
}

/// How many more questions the handling of an input may take at most, not
/// counting those after further ancestors of a block to be committed.
pub open spec fn questions_left(stage: StageView) -> nat {
    match stage {
        StageView::ProposalDigest(_) => 12,
        StageView::ProposalLeader(_, _) => 11,
        StageView::ProposalVerification(_) => 10,
        StageView::PayloadVerification(_) => 9,
        StageView::AncestorLookup(_) => 8,
        StageView::BlockDigest { .. } => 7,
        StageView::ParentLookup { .. } => 6,
        StageView::VoteSigning(_) => 5,
        StageView::NextLeader(_) => 4,
        StageView::VoteVerification(_) => 3,
        StageView::VoteAggregation => 2,
        StageView::VoteLeader => 1,
        StageView::TimeoutSigning => 4,
        StageView::TimeoutVerification(_) => 3,
        StageView::TimeoutAggregation => 2,
        StageView::TimeoutLeader(_) => 1,
        StageView::TCVerification(_) => 2,
        StageView::TCLeader(_) => 1,
        StageView::CheckpointVerification(_) => 3,
        StageView::CheckpointDigest(_) => 2,
        StageView::StartupLeader => 1,
        StageView::New | StageView::Syncing | StageView::Idle => 0,
    }
}

/// The round of the block whose parent is being looked up.
pub open spec fn lookup_round(stage: StageView) -> Round {
    match stage {
        StageView::ParentLookup { head, ancestors, .. } => oldest(head, ancestors).round,
        _ => 0,
    }
}

/// Every input is dealt with after finitely many answers, as long as a block is
/// of a later round than its parent: with each answer there are fewer questions
/// left, or the ancestors of a block to be committed reach further back.
#[verifier::rlimit(30)]
pub proof fn law_handlers_end(core: CoreView, input: InputView)
    requires
        core.admits(input),
        questions_left(core.stage) > 0,
        input matches InputView::ParentFound(Ok(Some(parent))) ==> parent.round < lookup_round(
            core.stage,
        ),
    ensures
        ({
            let after = core.step(input).0.stage;
            ||| questions_left(after) < questions_left(core.stage)
            ||| questions_left(after) == questions_left(core.stage) && lookup_round(after)
                < lookup_round(core.stage)
        }),
        core.step(input).1.next is Ask <==> questions_left(core.step(input).0.stage) > 0,
{
}

} // verus!
