# fluxus

An auto-compounding vault for NEAR and the treasurer that shares its fees,
with the vault's rules stated as contracts and proved with Verus.

Users deposit the liquidity shares of an exchange pool (Ref Finance, stable
Ref Finance pools, Jumbo) or a token lent on Pembrock; the vault mints its own
share tokens for them. Sentries drive the harvest of each farm through its
stages: claim the rewards, withdraw them, take the fees, swap them for the
pool's tokens, add liquidity and stake it again. The treasurer swaps the fees
it receives and shares them among its stakeholders.

Layout:

- `src/` the verified library: the share ledger (`shares`), fees (`fees`),
  the harvest of each kind of strategy (`compounder`, `stable`, `jumbo`,
  `pembrock`, `jumbo_vault`), the vault (`safe`, `views`, `receiver`,
  `strategy`), the treasurer (`treasurer`), and their helpers (`arith`, `ids`,
  `strmap`, `farm`, `errors`).
- `tests/` tests of the library on concrete values.
- `app/` the edge on the NEAR runtime: reading the caller and the results of
  earlier calls, building the calls to other contracts, and JSON views.
