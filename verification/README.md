# coretime_revenue

An end-to-end run of the coretime revenue flow on a local network of a relay chain and its coretime
parachain: tokens are teleported, a region is bought and pooled, on-demand coretime is ordered, the
revenue is claimed, and the total issuance of both chains is checked against what it should be.

The library in `src/` decides; it is verified with Verus.

- `scenario`: the order of the run, what it watches, the checks it makes, and the issuance it
  expects.
- `issuance`: total issuance of both chains, and watching it from block to block.
- `events`: the log of finalized parachain events, and waiting for events in it.
- `transaction`: pushing one transaction until it is finalized and known to have succeeded.
- `network`: what the network is made of.
- `chain`, `accounts`: values that live on the chains, and the account that the run acts for.

The program in `app/` acts: it brings up the network, talks to the nodes, and feeds the replies to
the library. `tests/` runs the library on concrete values.
