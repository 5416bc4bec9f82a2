# solana_fantasy_sports

Verified account layouts and instruction encoding of a fantasy sports program.

- `src/` is the verified library. Account data is a byte buffer; `SwapProposal`,
  `SwapProposalsList`, `Player` and `Root` are views at an offset into it, and each
  getter or setter states exactly which bytes it reads or writes. `instruction` packs and
  unpacks instructions and builds them with their account lists. `processor` holds the
  checks that decide whether a league may be created or joined.
- `app/` converts between the library's types and those of `solana_program`, and offers
  the views over a shared `RefCell` buffer as programs use them.
- `tests/` runs the library on concrete values.
