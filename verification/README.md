# xcm_utils

A verified library for a parachain that registers its native asset on Asset Hub
(Westend) and moves it there together with WND.

- `location`, `asset`, `instruction`: the XCM values the programs are made of, each
  with a mathematical view.
- `codec`, `calls`: the Asset Hub calls (`ForeignAssets::create`,
  `AssetConversion::create_pool` / `add_liquidity`), with integers encoded by
  `parity-scale-codec` and locations by `staging-xcm`.
- `account`: the sibling sovereign account and hex public keys.
- `pallet`: the calls `register_native_asset_on_ah`, `transfer_to_ah`,
  `setup_pool_on_ah`: origin checks, top-ups and the exact programs they build.
- `xcm_config`: the barrier rule against a banned Asset Hub account and anything
  below it (after the message's leading `DescendOrigin`s), free execution
  for the relay chain, the WND reserve and the teleport whitelist.
- `weights`: the calls' weights.
- `laws`: properties across these functions.

`app/` converts the library's values into `staging_xcm` values and drives the calls
against a runtime (mint, send, execute, events).
