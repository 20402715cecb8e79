# consensus

The decisions of a node in a round-based Byzantine consensus protocol, with epochs
and checkpoints, written and verified in Verus.

- `src/node.rs` holds the core, which votes, moves from round to round, commits
  blocks and keeps track of epochs; `src/helper.rs` holds the helper, which serves
  blocks and checkpoints to other nodes. Both are state machines without input or
  output: `step` takes one input and replies with the effects to be performed and
  with the question to be answered next.
- `src/protocol.rs` lists the inputs, effects and questions; `src/model.rs` says
  what each step of the core does.
- `src/laws.rs` and the modules under it state what holds in every run, such as
  that a node votes at most once per round.
- `src/consensus.rs` routes the messages that arrive from the network.
- `app/` runs the state machines: tasks, channels, timers and the encoding of
  messages.

An epoch has 5000 rounds. The block certified for the last round of an epoch is
its checkpoint, from which another node can start.
